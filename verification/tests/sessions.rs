//! Two sessions that talk to each other.

use easy_rpc::method::{HandleError, Method};
use easy_rpc::packet::{self, PacketError};
use easy_rpc::reply::{Arg, Ret};
use easy_rpc::result::RequestResult;
use easy_rpc::service::{Adaptor, EmptyService, RecvError, Service};
use easy_rpc::session::{wait_step, Handled, LoopAction, Session, WaitAction, WaitEvent};
use std::cell::{Cell, RefCell};
use std::rc::Rc;

type Slot = Rc<RefCell<Option<RequestResult>>>;

const ECHO: Method = Method::Int(1);
const BIGDATA: Method = Method::Int(2);
const MUL: u32 = 1;

#[derive(Clone, Copy, PartialEq)]
enum Side {
    Client,
    Server,
    Calculator,
    Forwarder,
    Empty,
}

struct End {
    side: Side,
    session: RefCell<Session<Slot>>,
    /// What was printed.
    printed: RefCell<Vec<String>>,
    /// The packets that were sent.
    sent: RefCell<Vec<Vec<u8>>>,
}

/// An end as seen by its service, with the other end.
struct Link<'a> {
    me: &'a End,
    peer: &'a End,
}

fn end(side: Side) -> End {
    End {
        side,
        session: RefCell::new(Session::new()),
        printed: RefCell::new(Vec::new()),
        sent: RefCell::new(Vec::new()),
    }
}

impl<'a> Link<'a> {
    fn send(&self, pack: Vec<u8>) {
        self.me.sent.borrow_mut().push(pack.clone());
        Link { me: self.peer, peer: self.me }.handle(pack);
    }

    fn handle(&self, pack: Vec<u8>) {
        let handled = self.me.session.borrow_mut().try_handle_packet(pack);
        match handled {
            Ok(Handled::Call(call)) => {
                let mut req_id = call.req_id();
                let ret = Ret { req_id: &mut req_id };
                let reply = if self.me.side == Side::Empty {
                    call.serve(&EmptyService, self, ret)
                } else {
                    call.serve(&self.me.side, self, ret)
                };
                if let Some(frame) = reply {
                    self.send(frame);
                }
            }
            Ok(Handled::Deliver { sender, result }) => {
                *sender.borrow_mut() = Some(result);
            }
            Err(e) => panic!("{:?}", e),
        }
    }

    fn request(&self, method: Method, arg: &[u8]) -> RequestResult {
        let slot: Slot = Rc::new(RefCell::new(None));
        let mut action = self.me.session.borrow_mut().request(method, arg, slot.clone());
        loop {
            let event = match action {
                WaitAction::Send(pack) => {
                    self.send(pack);
                    WaitEvent::Sent(true)
                }
                WaitAction::Poll => WaitEvent::Polled(slot.borrow_mut().take()),
                WaitAction::Receive => WaitEvent::Received(Some(Err(RecvError::Disconnect))),
                WaitAction::Done(r) => return r,
                _ => panic!("nothing is received here"),
            };
            action = wait_step(event);
        }
    }

    fn notify(&self, method: Method, arg: &[u8]) {
        let pack = self.me.session.borrow().notify(method, arg);
        self.send(pack);
    }

    fn answer(&self, frame: Option<Vec<u8>>) {
        if let Some(frame) = frame {
            self.send(frame);
        }
    }
}

fn pack<T: serde::Serialize>(value: T) -> Vec<u8> {
    rmp_serde::to_vec(&value).unwrap()
}

fn value<T: serde::de::DeserializeOwned>(result: RequestResult) -> Result<T, String> {
    let decoded = result.data().and_then(|bytes| rmp_serde::from_slice(bytes).ok());
    result.intos(decoded)
}

impl<'a, 'b> Service<Link<'a>, Ret<'b>> for Side {
    fn handle(&self, ss: &Link<'a>, arg: Arg, ret: Ret<'b>) -> Result<(), HandleError> {
        match (*self, arg.method) {
            (Side::Client, ECHO) => {
                let val: u32 = rmp_serde::from_slice(arg.bytes)?;
                ss.answer(ret.ret_raw(&pack(val + 1)));
            }
            (Side::Server, ECHO) => {
                let val: u32 = rmp_serde::from_slice(arg.bytes)?;
                let val: u32 = value(ss.request(ECHO, &pack(val)))?;
                ss.answer(ret.ret_raw(&pack(val + 1)));
            }
            (Side::Server, BIGDATA) => {
                let data: Vec<u8> = rmp_serde::from_slice(arg.bytes)?;
                ss.answer(ret.ret_raw(&pack(data)));
            }
            (Side::Calculator, Method::Str("add")) => {
                let (a, b): (u32, u32) = rmp_serde::from_slice(arg.bytes)?;
                ss.answer(ret.ret_raw(&pack(a + b)));
            }
            (Side::Calculator, Method::Str("print")) => {
                let s: String = rmp_serde::from_slice(arg.bytes)?;
                assert!(!ret.is_valid());
                assert_eq!(arg.id, 0);
                ss.me.printed.borrow_mut().push(s);
                ss.answer(ret.ret_raw(&pack(())));
            }
            (Side::Calculator, Method::Int(MUL)) => {
                let (a, b): (u32, u32) = rmp_serde::from_slice(arg.bytes)?;
                ss.answer(ret.ret_raw(&pack(a * b)));
            }
            (Side::Calculator, Method::Str("refuse")) => {
                ss.answer(ret.error("refused"));
            }
            (Side::Calculator, _) => return Err("Unhandled Method".into()),
            (Side::Forwarder, method) => {
                let result = ss.request(method, arg.bytes);
                ss.answer(ret.call_once(result));
            }
            _ => {}
        }
        Ok(())
    }
}

#[test]
fn echo_and_big_data() {
    let client = end(Side::Client);
    let server = end(Side::Server);
    let link = Link { me: &client, peer: &server };

    let val: u32 = value(link.request(ECHO, &pack(0u32))).unwrap();
    assert_eq!(val, 2);

    let len: usize = 0x10000;
    let tail = [1u8, 2, 3];
    let mut data: Vec<u8> = Vec::with_capacity(len);
    data.resize(len, 0);
    data.extend_from_slice(&tail);
    let data: Vec<u8> = value(link.request(BIGDATA, &pack(&data))).unwrap();
    assert_eq!(data.len(), len + tail.len());
    assert_eq!(&data[data.len() - tail.len()..], &tail);
}

#[test]
fn add_print_and_multiply() {
    let client = end(Side::Empty);
    let server = end(Side::Calculator);
    let link = Link { me: &client, peer: &server };

    let val: u32 = value(link.request(Method::Str("add"), &pack((1, 2)))).unwrap();
    assert_eq!(val, 3);
    link.notify(Method::Str("print"), &pack(format!("the result is {}", val)));
    assert_eq!(*server.printed.borrow(), vec!["the result is 3".to_string()]);
    let val: u32 = value(link.request(Method::Int(MUL), &pack((2, 3)))).unwrap();
    assert_eq!(val, 6);
    // A notification is not answered, even if its handler tries to.
    assert_eq!(server.sent.borrow().len(), 2);
}

#[test]
fn errors_reach_the_caller() {
    let client = end(Side::Client);
    let server = end(Side::Calculator);
    let link = Link { me: &client, peer: &server };

    let refused: Result<u32, String> = value(link.request(Method::Str("refuse"), &[0xc0]));
    assert_eq!(refused, Err("Error: refused".to_string()));
    let unknown: Result<u32, String> = value(link.request(Method::Str("sub"), &[0xc0]));
    assert_eq!(unknown, Err("Error: \"Unhandled Method\"".to_string()));
    // A handler's error on a notification goes nowhere.
    link.notify(Method::Str("sub"), &[0xc0]);
    assert_eq!(server.sent.borrow().len(), 2);
}

#[test]
fn empty_service_has_no_methods() {
    let client = end(Side::Client);
    let server = end(Side::Empty);
    let link = Link { me: &client, peer: &server };
    let r: Result<u32, String> = value(link.request(Method::Int(1), &[0xc0]));
    assert_eq!(r, Err("Error: No this method".to_string()));
    assert_eq!(*server.sent.borrow(), vec![packet::response_error(1, "No this method")]);
    link.notify(Method::Int(1), &[0xc0]);
    assert_eq!(server.sent.borrow().len(), 1);
}

#[test]
fn a_result_of_another_type_is_kept() {
    let client = end(Side::Client);
    let server = end(Side::Calculator);
    let link = Link { me: &client, peer: &server };
    let r = link.request(Method::Str("add"), &pack((1, 2)));
    let decoded: Option<String> = r.data().and_then(|b| rmp_serde::from_slice(b).ok());
    match r.into(decoded) {
        Err(RequestResult::Decode(d)) => assert_eq!(d.as_slice(), &[3]),
        _ => panic!("an integer is no string"),
    }
}

#[test]
fn an_answer_can_be_passed_on() {
    // The forwarder asks its caller back, and answers with what it gets.
    let client = end(Side::Client);
    let forwarder = end(Side::Forwarder);
    let link = Link { me: &client, peer: &forwarder };
    let val: u32 = value(link.request(ECHO, &pack(41u32))).unwrap();
    assert_eq!(val, 42);

    let calculator = end(Side::Calculator);
    let link = Link { me: &calculator, peer: &forwarder };
    let r: Result<u32, String> = value(link.request(Method::Str("refuse"), &[0xc0]));
    assert_eq!(r, Err("Error: refused".to_string()));
}

#[test]
fn responses_may_come_in_any_order() {
    let mut session: Session<u8> = Session::new();
    session.request(1u32, &[], 10);
    session.request(1u32, &[], 20);
    session.request(1u32, &[], 30);
    for (id, sender) in [(2u32, 20u8), (3, 30), (1, 10)] {
        match session.try_handle_packet(packet::response(id, &[id as u8])) {
            Ok(Handled::Deliver { sender: to, result: RequestResult::Data(d) }) => {
                assert_eq!(to, sender);
                assert_eq!(d.as_slice(), &[id as u8]);
            }
            _ => panic!("not delivered"),
        }
    }
}

#[test]
fn nested_requests_return_to_their_callers() {
    let mut session: Session<&str> = Session::new();
    session.request(1u32, &[], "outer");
    session.request(1u32, &[], "inner");
    match session.try_handle_packet(packet::response_error(2, "x")) {
        Ok(Handled::Deliver { sender, result: RequestResult::Error(e) }) => {
            assert_eq!(sender, "inner");
            assert_eq!(e, "x");
        }
        _ => panic!("not delivered"),
    }
    match session.try_handle_packet(packet::response(1, &[5])) {
        Ok(Handled::Deliver { sender, result }) => {
            assert_eq!(sender, "outer");
            assert_eq!(result.data(), Some(&[5u8][..]));
        }
        _ => panic!("not delivered"),
    }
}

#[test]
fn a_request_is_answered_once() {
    let mut session: Session<u8> = Session::new();
    session.request(1u32, &[], 10);
    assert!(session.try_handle_packet(packet::response(1, &[5])).is_ok());
    assert!(matches!(
        session.try_handle_packet(packet::response(1, &[5])),
        Err(PacketError::SenderNotFound)
    ));
    assert!(matches!(
        session.try_handle_packet(packet::response_error(1, "late")),
        Err(PacketError::SenderNotFound)
    ));
}

#[test]
fn a_refused_packet_changes_nothing() {
    let mut session: Session<u8> = Session::new();
    session.request(1u32, &[], 10);
    assert!(matches!(
        session.try_handle_packet(vec![0x94, 1, 1, 5, 0]),
        Err(PacketError::Error)
    ));
    assert!(matches!(session.try_handle_packet(vec![]), Err(PacketError::Header)));
    assert!(matches!(
        session.try_handle_packet(packet::response(2, &[])),
        Err(PacketError::SenderNotFound)
    ));
    match session.handle_packet(packet::response(1, &[5])) {
        Handled::Deliver { sender, .. } => assert_eq!(sender, 10),
        _ => panic!("not delivered"),
    }
    assert_eq!(session.next_id(), 2);
}

#[test]
fn an_id_can_be_entered_by_hand() {
    let mut session: Session<u8> = Session::new();
    let (pack, id) = session.prepare_request(Method::Str("m"));
    match session.send_and_wait_response(id, pack.clone(), 3) {
        WaitAction::Send(p) => assert_eq!(p, pack),
        _ => panic!("a request is sent first"),
    }
    assert!(session.try_handle_packet(packet::response(id, &[])).is_ok());
}

#[test]
fn the_loop_stops_at_the_end_of_the_connection() {
    let mut session: Session<u8> = Session::new();
    session.request(1u32, &[], 10);
    match session.loop_handle(Some(Ok(vec![1, 2]))) {
        LoopAction::Handle(pack) => assert_eq!(pack, vec![1, 2]),
        LoopAction::Stop => panic!("a packet came"),
    }
    assert!(matches!(
        session.loop_handle(Some(Err(RecvError::Disconnect))),
        LoopAction::Stop
    ));
    // Nobody waits any more.
    assert!(matches!(
        session.try_handle_packet(packet::response(1, &[5])),
        Err(PacketError::SenderNotFound)
    ));
    assert_eq!(session.next_id(), 2);
}

#[test]
fn how_a_caller_waits() {
    assert!(matches!(wait_step(WaitEvent::Sent(true)), WaitAction::Poll));
    assert!(matches!(wait_step(WaitEvent::Sent(false)), WaitAction::Poll));
    assert!(matches!(wait_step(WaitEvent::Polled(None)), WaitAction::Receive));
    assert!(matches!(wait_step(WaitEvent::Received(None)), WaitAction::Block));
    assert!(matches!(wait_step(WaitEvent::Handled), WaitAction::Poll));
    match wait_step(WaitEvent::Received(Some(Ok(vec![7])))) {
        WaitAction::Handle(pack) => assert_eq!(pack, vec![7]),
        _ => panic!("a packet is handled"),
    }
    match wait_step(WaitEvent::Polled(Some(RequestResult::Error("e".to_string())))) {
        WaitAction::Done(RequestResult::Error(e)) => assert_eq!(e, "e"),
        _ => panic!("the response is returned"),
    }
    match wait_step(WaitEvent::Woken(Some(RequestResult::Error("w".to_string())))) {
        WaitAction::Done(RequestResult::Error(e)) => assert_eq!(e, "w"),
        _ => panic!("the response is returned"),
    }
    assert!(matches!(
        wait_step(WaitEvent::Woken(None)),
        WaitAction::Done(RequestResult::Disconnect)
    ));
    assert!(matches!(
        wait_step(WaitEvent::Received(Some(Err(RecvError::Disconnect)))),
        WaitAction::Done(RequestResult::Disconnect)
    ));
}

struct Queue {
    packets: RefCell<Vec<Vec<u8>>>,
    closed: Cell<bool>,
}

impl Adaptor for Queue {
    fn send(&self, data: Vec<u8>) -> bool {
        if self.closed.get() {
            return false;
        }
        self.packets.borrow_mut().push(data);
        true
    }

    fn recv(&self) -> Result<Vec<u8>, RecvError> {
        self.packets.borrow_mut().pop().ok_or(RecvError::Disconnect)
    }

    fn connected(&self) -> bool {
        !self.closed.get()
    }

    fn close(&self) {
        self.closed.set(true);
    }
}

#[test]
fn packets_go_through_the_adaptor() {
    let queue = Queue { packets: RefCell::new(Vec::new()), closed: Cell::new(false) };
    assert!(Session::<()>::send_pack(&queue, vec![1, 2, 3]));
    // Without the lock nothing is received.
    assert!(Session::<()>::recv_packet(false, &queue).is_none());
    match Session::<()>::recv_packet(true, &queue) {
        Some(Ok(pack)) => assert_eq!(pack, vec![1, 2, 3]),
        _ => panic!("nothing was received"),
    }
    assert!(matches!(
        Session::<()>::recv_packet(true, &queue),
        Some(Err(RecvError::Disconnect))
    ));
    queue.close();
    assert!(!queue.connected());
    assert!(!Session::<()>::send_pack(&queue, vec![]));
}
