//! One end of a connection: which requests wait for a response, and what each packet leads to.
//!
//! What is to be sent is handed back, and what was received is handed in. Only
//! [`Session::recv_packet`] and [`Session::send_pack`] reach for the connection, through the
//! adaptor that they are given, and only [`Call::serve`] runs a handler of the service.

use crate::method::{HandleError, Method, MethodView, ToMethod};
use crate::packet;
use crate::packet::{Packet, PacketError, PacketView};
use crate::reply;
use crate::reply::Arg;
use crate::result::{RequestResult, RespData, ResultView};
use crate::service::{Adaptor, RecvError, Service, Use};
use crate::wire;
use crate::wire::Value;
use std::collections::HashMap;
use vstd::prelude::*;

verus! {

broadcast use vstd::std_specs::hash::group_hash_axioms;

/// A request or a notification to handle.
pub struct CallView {
    pub method: MethodView,
    /// The request id; a notification has none.
    pub req_id: Option<u32>,
    /// The arguments, in MessagePack.
    pub args: Seq<u8>,
}

/// A request or a notification to handle.
pub struct Call {
    method: Value,
    req_id: Option<u32>,
    pack: Vec<u8>,
    offset: usize,
}

impl View for Call {
    type V = CallView;

    closed spec fn view(&self) -> CallView {
        CallView {
            method: packet::method_of(self.method@)->0,
            req_id: self.req_id,
            args: self.pack@.skip(self.offset as int),
        }
    }
}

/// What goes back once the handler of `call` has returned: the error, if `call` is a request and
/// the handler returned one.
pub open spec fn reply_frame(call: CallView, outcome: Result<(), HandleError>) -> Option<Seq<u8>> {
    match (call.req_id, outcome) {
        (Some(id), Err(e)) => Some(packet::error_frame(id, e@)),
        _ => None,
    }
}

/// Whether `arg` is what the handler of `call` gets.
pub open spec fn is_arg(arg: Arg, call: CallView) -> bool {
    &&& arg.method@ == call.method
    &&& arg.bytes@ == call.args
    &&& arg.id == match call.req_id {
        Some(id) => id,
        None => 0,
    }
}

impl Call {
    /// The method can be told from its value, and the arguments start inside the packet or at
    /// its end.
    #[verifier::type_invariant]
    spec fn parsed(self) -> bool {
        &&& packet::method_of(self.method@) is Some
        &&& self.offset <= self.pack@.len()
    }

    /// What the handler gets.
    pub fn arg(&self) -> (r: Arg<'_>)
        ensures
            is_arg(r, self@),
    {
        proof {
            use_type_invariant(self);
        }
        let method = match packet::parse_method(&self.method) {
            Some(method) => method,
            None => Method::Int(0),
        };
        let bytes = vstd::slice::slice_subrange(
            self.pack.as_slice(),
            self.offset,
            self.pack.len(),
        );
        let id: u32 = match self.req_id {
            Some(id) => id,
            None => 0,
        };
        Arg { method, bytes, id }
    }

    /// The request id; a notification has none.
    pub fn req_id(&self) -> (r: Option<u32>)
        ensures
            r == self@.req_id,
    {
        self.req_id
    }

    /// The frame to send once the handler has returned: the error of a request.
    pub fn finish(&self, outcome: Result<(), HandleError>) -> (r: Option<Vec<u8>>)
        ensures
            reply::is_frame(r, reply_frame(self@, outcome)),
    {
        match (self.req_id, outcome) {
            (Some(req_id), Err(e)) => Some(packet::response_error(req_id, e.text())),
            _ => None,
        }
    }

    /// Has `service` handle the call, and gives the frame to send after that.
    pub fn serve<S, R, V: Service<S, R> + ?Sized>(&self, service: &V, ss: &S, ret: R) -> (r: Option<
        Vec<u8>,
    >)
        ensures
            exists|arg: Arg, outcome: Result<(), HandleError>|
                #![trigger call_ensures(V::handle, (service, ss, arg, ret), outcome)]
                is_arg(arg, self@) && call_ensures(V::handle, (service, ss, arg, ret), outcome)
                    && reply::is_frame(r, reply_frame(self@, outcome)),
    {
        let arg = self.arg();
        let ghost given = arg;
        let outcome = service.handle(ss, arg, ret);
        assert(call_ensures(V::handle, (service, ss, given, ret), outcome));
        self.finish(outcome)
    }
}

/// What a packet leads to.
pub enum Handled<T> {
    /// The service is to handle a call.
    Call(Call),
    /// The caller that waits behind `sender` gets `result`.
    Deliver { sender: T, result: RequestResult },
}

/// Whether the packet that says `view` leads to `handled`, where `pending` are the callers that
/// wait for a response.
pub open spec fn leads_to<T>(view: PacketView, pending: Map<u32, T>, handled: Handled<T>) -> bool {
    match view {
        PacketView::Request { id, method, args } => handled matches Handled::Call(call) && call@
            == (CallView { method, req_id: Some(id), args }),
        PacketView::Notify { method, args } => handled matches Handled::Call(call) && call@ == (
        CallView { method, req_id: None, args }),
        PacketView::Response { id, error, result } => handled matches Handled::Deliver {
            sender,
            result: delivered,
        } && sender == pending[id] && delivered@ == response_result(error, result),
    }
}

/// What a response means to the caller.
pub open spec fn response_result(error: Option<Seq<char>>, result: Seq<u8>) -> ResultView {
    match error {
        Some(e) => ResultView::Error(e),
        None => ResultView::Data(result),
    }
}

/// The callers that still wait once the packet that says `view` was handled.
pub open spec fn pending_after<T>(view: PacketView, pending: Map<u32, T>) -> Map<u32, T> {
    match view {
        PacketView::Response { id, .. } => pending.remove(id),
        _ => pending,
    }
}

/// Why a session whose waiting callers are `pending` cannot handle the packet `pack`, if it
/// cannot.
pub open spec fn refusal<T>(pack: Seq<u8>, pending: Map<u32, T>) -> Option<PacketError> {
    match packet::packet_at(pack) {
        Err(e) => Some(e),
        Ok(PacketView::Response { id, .. }) => if pending.dom().contains(id) {
            None
        } else {
            Some(PacketError::SenderNotFound)
        },
        Ok(_) => None,
    }
}

/// What a caller does next while it waits for its response.
pub enum WaitAction {
    /// Send the request.
    Send(Vec<u8>),
    /// See whether the response was delivered.
    Poll,
    /// Receive a packet, unless another caller is at it.
    Receive,
    /// Handle a packet.
    Handle(Vec<u8>),
    /// Wait until the response is delivered.
    Block,
    /// Return.
    Done(RequestResult),
}

/// What came of a [`WaitAction`].
pub enum WaitEvent {
    Sent(bool),
    /// The response, if it was delivered.
    Polled(Option<RequestResult>),
    /// What was received; nothing if another caller is receiving.
    Received(Option<Result<Vec<u8>, RecvError>>),
    Handled,
    /// The response; nothing if it can no longer be delivered.
    Woken(Option<RequestResult>),
}

/// What a caller does after `event`.
pub open spec fn next_action(event: WaitEvent) -> WaitAction {
    match event {
        WaitEvent::Sent(_) => WaitAction::Poll,
        WaitEvent::Polled(Some(r)) => WaitAction::Done(r),
        WaitEvent::Polled(None) => WaitAction::Receive,
        WaitEvent::Received(None) => WaitAction::Block,
        WaitEvent::Received(Some(Ok(pack))) => WaitAction::Handle(pack),
        WaitEvent::Received(Some(Err(RecvError::Disconnect))) => WaitAction::Done(
            RequestResult::Disconnect,
        ),
        WaitEvent::Handled => WaitAction::Poll,
        WaitEvent::Woken(Some(r)) => WaitAction::Done(r),
        WaitEvent::Woken(None) => WaitAction::Done(RequestResult::Disconnect),
    }
}

/// What the receiving loop does next.
pub enum LoopAction {
    /// Handle a packet, then receive again.
    Handle(Vec<u8>),
    /// Return.
    Stop,
}

/// The state of a session.
#[verifier::ext_equal]
pub struct SessionView<T> {
    /// The callers that wait for a response, by request id.
    pub pending: Map<u32, T>,
    /// The id of the next request.
    pub next_id: u32,
}

/// The id after `id`. After the last one comes 0.
pub open spec fn id_after(id: u32) -> u32 {
    if id == u32::MAX {
        0
    } else {
        (id + 1) as u32
    }
}

/// A communication endpoint. `T` is what a response is delivered through to the caller that
/// waits for it.
pub struct Session<T> {
    sender_table: HashMap<u32, T>,
    id_counter: u32,
}

impl<T> View for Session<T> {
    type V = SessionView<T>;

    closed spec fn view(&self) -> SessionView<T> {
        SessionView { pending: self.sender_table@, next_id: self.id_counter }
    }
}

impl<T> Session<T> {
    /// A session in which nobody waits. Request ids start at 1.
    pub fn new() -> (r: Session<T>)
        ensures
            r@ == (SessionView::<T> { pending: Map::empty(), next_id: 1 }),
    {
        Session { sender_table: HashMap::new(), id_counter: 1 }
    }

    /// Receives a packet through `adaptor`, where `locked` says whether this caller holds the
    /// lock on receiving, which is what lets it receive. Without the lock the adaptor is not asked
    /// for a packet. With it, the adaptor is asked once, since one use of it is all there is, and
    /// what it gave is returned: no packet is lost.
    pub fn recv_packet<A: Adaptor + ?Sized, U: Use<A>>(locked: bool, adaptor: U) -> (r: Option<
        Result<Vec<u8>, RecvError>,
    >)
        requires
            locked ==> adaptor.adaptor().may_recv(),
        ensures
            match r {
                Some(received) => locked && call_ensures(
                    A::recv,
                    (adaptor.adaptor(),),
                    received,
                ),
                None => !locked,
            },
    {
        if locked {
            Some(adaptor.recv())
        } else {
            None
        }
    }

    /// Sends a frame through `adaptor`, once, and says whether it was sent.
    pub fn send_pack<A: Adaptor + ?Sized, U: Use<A>>(adaptor: U, frame: Vec<u8>) -> (r: bool)
        ensures
            call_ensures(A::send, (adaptor.adaptor(), frame), r),
    {
        adaptor.send(frame)
    }

    /// Handles a packet that was received.
    pub fn handle_packet(&mut self, pack: Vec<u8>) -> (r: Handled<T>)
        requires
            refusal(pack@, old(self)@.pending) is None,
        ensures
            packet::packet_at(pack@) matches Ok(view) && leads_to(view, old(self)@.pending, r)
                && final(self)@ == (SessionView {
                pending: pending_after(view, old(self)@.pending),
                next_id: old(self)@.next_id,
            }),
    {
        match packet::parse_packet(pack.as_slice()) {
            Ok(Packet::Request { id, method, offset }) => {
                Handled::Call(Call { method, req_id: Some(id), pack, offset })
            },
            Ok(Packet::Notify { method, offset }) => {
                Handled::Call(Call { method, req_id: None, pack, offset })
            },
            Ok(Packet::Response { id, error, offset }) => {
                let sender = self.sender_table.remove(&id).unwrap();
                let result = match error {
                    None => RequestResult::Data(RespData::new(pack, offset)),
                    Some(e) => RequestResult::Error(e),
                };
                Handled::Deliver { sender, result }
            },
            Err(_) => vstd::pervasive::unreached(),
        }
    }

    /// Handles a packet that was received, unless it cannot be handled. A packet that is refused
    /// changes nothing.
    pub fn try_handle_packet(&mut self, pack: Vec<u8>) -> (r: Result<Handled<T>, PacketError>)
        ensures
            match r {
                Ok(handled) => refusal(pack@, old(self)@.pending) is None && (packet::packet_at(
                    pack@,
                ) matches Ok(view) && leads_to(view, old(self)@.pending, handled) && final(self)@
                    == (SessionView {
                    pending: pending_after(view, old(self)@.pending),
                    next_id: old(self)@.next_id,
                })),
                Err(e) => refusal(pack@, old(self)@.pending) == Some(e) && final(self)@ == old(
                    self,
                )@,
            },
    {
        match packet::parse_packet(pack.as_slice()) {
            Ok(Packet::Response { id, .. }) => {
                if !self.sender_table.contains_key(&id) {
                    return Err(PacketError::SenderNotFound);
                }
            },
            Ok(_) => {},
            Err(e) => {
                return Err(e);
            },
        }
        Ok(self.handle_packet(pack))
    }

    /// One round of the loop that receives and handles packets until the adaptor disconnects,
    /// after which nobody waits any more. What the loop receives is always something: it holds
    /// the lock on receiving.
    pub fn loop_handle(&mut self, received: Option<Result<Vec<u8>, RecvError>>) -> (r: LoopAction)
        requires
            received is Some,
        ensures
            match received->0 {
                Ok(pack) => r == LoopAction::Handle(pack) && final(self)@ == old(self)@,
                Err(RecvError::Disconnect) => r == LoopAction::Stop && final(self)@ == (
                SessionView::<T> { pending: Map::empty(), next_id: old(self)@.next_id }),
            },
    {
        match received.unwrap() {
            Ok(pack) => LoopAction::Handle(pack),
            Err(RecvError::Disconnect) => {
                self.sender_table.clear();
                LoopAction::Stop
            },
        }
    }

    /// The id for a new request.
    pub fn next_id(&mut self) -> (r: u32)
        ensures
            r == old(self)@.next_id,
            final(self)@ == (SessionView {
                pending: old(self)@.pending,
                next_id: id_after(old(self)@.next_id),
            }),
    {
        let id = self.id_counter;
        self.id_counter = id.wrapping_add(1);
        id
    }

    /// Enters the caller behind `sender` as waiting for the response to the request `req_id`,
    /// then has it send the request. [`wait_step`] says how it goes on.
    pub fn send_and_wait_response(&mut self, req_id: u32, pack: Vec<u8>, sender: T) -> (r:
        WaitAction)
        ensures
            r == WaitAction::Send(pack),
            final(self)@ == (SessionView {
                pending: old(self)@.pending.insert(req_id, sender),
                next_id: old(self)@.next_id,
            }),
    {
        self.sender_table.insert(req_id, sender);
        WaitAction::Send(pack)
    }

    /// A request up to its arguments, and its id.
    pub fn prepare_request(&mut self, method: Method) -> (r: (Vec<u8>, u32))
        ensures
            r.1 == old(self)@.next_id,
            r.0@ == packet::request_head(r.1, method@),
            final(self)@ == (SessionView {
                pending: old(self)@.pending,
                next_id: id_after(old(self)@.next_id),
            }),
    {
        let mut pack: Vec<u8> = Vec::with_capacity(0x30);
        let req_id = self.next_id();
        wire::write_array_len(&mut pack, 4);
        wire::write_u32(&mut pack, packet::REQUEST);
        wire::write_u32(&mut pack, req_id);
        method.serialize(&mut pack);
        assert(pack@ =~= packet::request_head(req_id, method@));
        (pack, req_id)
    }

    /// Starts a request, for the caller behind `sender`. `arg` is what serialising the argument
    /// gave.
    pub fn request<'a>(&mut self, method: impl ToMethod<'a>, arg: &[u8], sender: T) -> (r:
        WaitAction)
        ensures
            r matches WaitAction::Send(pack) && pack@ == packet::request_head(
                old(self)@.next_id,
                method.as_method(),
            ) + arg@,
            final(self)@ == (SessionView {
                pending: old(self)@.pending.insert(old(self)@.next_id, sender),
                next_id: id_after(old(self)@.next_id),
            }),
    {
        self.request_transfer(method, arg, sender)
    }

    /// A notification. `arg` is what serialising the argument gave.
    pub fn notify<'a>(&self, method: impl ToMethod<'a>, arg: &[u8]) -> (pack: Vec<u8>)
        ensures
            pack@ == packet::notify_head(method.as_method()) + arg@,
    {
        self.notify_transfer(method, arg)
    }

    /// Starts a request with arguments that are already MessagePack, for the caller behind
    /// `sender`.
    pub fn request_transfer<'a>(
        &mut self,
        method: impl ToMethod<'a>,
        msgpack: &[u8],
        sender: T,
    ) -> (r: WaitAction)
        ensures
            r matches WaitAction::Send(pack) && pack@ == packet::request_head(
                old(self)@.next_id,
                method.as_method(),
            ) + msgpack@,
            final(self)@ == (SessionView {
                pending: old(self)@.pending.insert(old(self)@.next_id, sender),
                next_id: id_after(old(self)@.next_id),
            }),
    {
        let (mut pack, req_id) = self.prepare_request(method.to_method());
        packet::append(&mut pack, msgpack);
        self.send_and_wait_response(req_id, pack, sender)
    }

    /// A notification with arguments that are already MessagePack.
    pub fn notify_transfer<'a>(&self, method: impl ToMethod<'a>, msgpack: &[u8]) -> (pack: Vec<u8>)
        ensures
            pack@ == packet::notify_head(method.as_method()) + msgpack@,
    {
        let mut pack = packet::prepare_notify(method.to_method());
        packet::append(&mut pack, msgpack);
        pack
    }

    /// A response whose error and result are already MessagePack.
    pub fn response_transfer(&self, req_id: u32, msgpack: &[u8]) -> (pack: Vec<u8>)
        ensures
            pack@ == packet::response_head(req_id) + msgpack@,
    {
        let mut pack = packet::prepare_response(req_id);
        packet::append(&mut pack, msgpack);
        pack
    }
}

/// What a caller that waits for its response does after `event`.
pub fn wait_step(event: WaitEvent) -> (r: WaitAction)
    ensures
        r == next_action(event),
{
    match event {
        WaitEvent::Sent(_) => WaitAction::Poll,
        WaitEvent::Polled(Some(r)) => WaitAction::Done(r),
        WaitEvent::Polled(None) => WaitAction::Receive,
        WaitEvent::Received(None) => WaitAction::Block,
        WaitEvent::Received(Some(Ok(pack))) => WaitAction::Handle(pack),
        WaitEvent::Received(Some(Err(RecvError::Disconnect))) => WaitAction::Done(
            RequestResult::Disconnect,
        ),
        WaitEvent::Handled => WaitAction::Poll,
        WaitEvent::Woken(Some(r)) => WaitAction::Done(r),
        WaitEvent::Woken(None) => WaitAction::Done(RequestResult::Disconnect),
    }
}

} // verus!
