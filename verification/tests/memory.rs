//! Channels in shared memory, and the ends that use them.

use easy_rpc::service::RecvError;
use easy_rpc::shm::{
    Channel, ChannelId, CollectAction, CollectEvent, Frame, FrameAction, FrameEvent, PingTime,
    Received, RecvAction, RecvEvent, SendAction, SendEvent, ShmAdaptor, TypeAction, Wait, BUF_LEN,
    EVT_MASTER, EVT_SLAVER, FRAME_DATA, FRAME_NONE, FRAME_PING, FRAME_PONG, SYNC_TIME_OUT,
};

fn empty() -> Channel {
    let mut ch = Channel { data_ty: 9, data_len: 9, sended: 9, recved: 9 };
    ch.init();
    ch
}

fn words(ch: &Channel) -> (u32, u32, u32, u32) {
    (ch.data_ty, ch.data_len, ch.sended, ch.recved)
}

/// Writes the type of a frame into the channel.
fn store_type(ch: &mut Channel, frame: &Frame) {
    match Channel::send_type(frame, ch.data_ty, 0) {
        TypeAction::Store { data_ty, data_len } => {
            ch.data_ty = data_ty;
            if let Some(len) = data_len {
                ch.data_len = len;
            }
        }
        _ => panic!("the channel is taken"),
    }
}

/// Sends `data` through a channel, both ends taking turns. Gives what arrives and the number of
/// pieces.
fn transfer(data: Vec<u8>) -> (Vec<u8>, usize) {
    let mut ch = empty();
    let mut buf = [0xffu8; BUF_LEN];
    store_type(&mut ch, &Frame::Data(data.clone()));
    let mut collector = match ch.recv() {
        Received::Collect(c) => c,
        _ => panic!("no data"),
    };
    assert_eq!((ch.data_ty, ch.data_len), (FRAME_DATA, data.len() as u32));

    let mut pieces = 0;
    let mut send = Channel::send_step(SendEvent::Start);
    let mut collect = Channel::collect_step(CollectEvent::Start);
    loop {
        send = match send {
            SendAction::Put(sended) => {
                let piece = Channel::send_data(&data, sended, &mut buf);
                ch.sended = piece.sended;
                pieces += 1;
                Channel::send_step(SendEvent::Put(piece.last))
            }
            SendAction::Wait => Channel::send_step(SendEvent::Waited(Channel::wait_recv(
                ch.sended, ch.recved, 0,
            ))),
            done => done,
        };
        collect = match collect {
            CollectAction::Wait => Channel::collect_step(CollectEvent::Waited(Channel::wait_send(
                ch.sended, ch.recved, 0,
            ))),
            CollectAction::Take(sended, recved) => {
                let taken = collector.push(sended, recved, &buf);
                ch.recved = taken.recved;
                Channel::collect_step(CollectEvent::Taken(taken.last))
            }
            CollectAction::Finish(timeout) => {
                assert!(matches!(send, SendAction::Done(true)));
                match collector.finish(timeout, &mut ch) {
                    Frame::Data(data) => {
                        assert_eq!(words(&ch), (FRAME_NONE, 0, 0, 0));
                        return (data, pieces);
                    }
                    _ => panic!("no data"),
                }
            }
        };
    }
}

fn bytes(len: usize) -> Vec<u8> {
    (0..len).map(|i| (i * 7 + i / 256) as u8).collect()
}

#[test]
fn data_of_any_length_arrive() {
    for (len, pieces) in [
        (1, 1),
        (2047, 1),
        (2048, 1),
        (2049, 2),
        (4096, 2),
        (0x10000 + 3, 33),
    ] {
        assert_eq!(transfer(bytes(len)), (bytes(len), pieces));
    }
}

#[test]
fn an_empty_channel() {
    let ch = empty();
    assert_eq!(words(&ch), (FRAME_NONE, 0, 0, 0));
}

#[test]
fn a_piece_goes_to_the_start_of_the_buffer() {
    let mut buf = [9u8; BUF_LEN];
    let data = bytes(2051);
    let piece = Channel::send_data(&data, 2048, &mut buf);
    assert_eq!(piece.sended, 2051);
    assert!(piece.last);
    assert_eq!(buf[..3], data[2048..]);
    assert!(buf[3..].iter().all(|b| *b == 9));
    let piece = Channel::send_data(&data, 0, &mut buf);
    assert_eq!(piece.sended, 2048);
    assert!(!piece.last);
    assert_eq!(buf[..], data[..2048]);
}

#[test]
fn types_of_frames() {
    for (frame, data_ty) in [(Frame::Ping, FRAME_PING), (Frame::Pong, FRAME_PONG)] {
        match Channel::send_type(&frame, FRAME_NONE, 0) {
            TypeAction::Store { data_ty: ty, data_len: None } => assert_eq!(ty, data_ty),
            _ => panic!("the type is written"),
        }
    }
    match Channel::send_type(&Frame::Data(vec![1, 2, 3]), FRAME_NONE, u128::MAX) {
        TypeAction::Store { data_ty, data_len } => {
            assert_eq!((data_ty, data_len), (FRAME_DATA, Some(3)));
        }
        _ => panic!("the type is written"),
    }
    assert!(matches!(Channel::send_type(&Frame::Ping, FRAME_DATA, SYNC_TIME_OUT), TypeAction::Again));
    assert!(matches!(Channel::send_type(&Frame::Ping, FRAME_DATA, 1_000_000_001), TypeAction::Expired));
}

/// What a receiver finds in a channel with these words, and the words afterwards.
fn found(data_ty: u32, data_len: u32) -> (Received, (u32, u32, u32, u32)) {
    let mut ch = Channel { data_ty, data_len, sended: 6, recved: 4 };
    let received = ch.recv();
    (received, words(&ch))
}

#[test]
fn what_a_receiver_finds() {
    let (r, w) = found(FRAME_NONE, 5);
    assert!(matches!(r, Received::Frame(Frame::Empty)));
    assert_eq!(w, (FRAME_NONE, 5, 6, 4));
    let (r, w) = found(FRAME_PING, 0);
    assert!(matches!(r, Received::Frame(Frame::Ping)));
    assert_eq!(w, (FRAME_NONE, 0, 6, 4));
    let (r, w) = found(FRAME_PONG, 5);
    assert!(matches!(r, Received::Frame(Frame::Pong)));
    assert_eq!(w, (FRAME_NONE, 5, 6, 4));
    let (r, w) = found(FRAME_DATA, 0);
    assert!(matches!(r, Received::Unsized));
    assert_eq!(w, (FRAME_DATA, 0, 6, 4));
    let (r, w) = found(FRAME_DATA, 1);
    assert!(matches!(r, Received::Collect(_)));
    assert_eq!(w, (FRAME_DATA, 1, 6, 4));
}

#[test]
fn a_control_frame_is_received_once() {
    let mut ch = empty();
    store_type(&mut ch, &Frame::Ping);
    assert!(matches!(Channel::send_type(&Frame::Pong, ch.data_ty, 0), TypeAction::Again));
    assert!(matches!(ch.recv(), Received::Frame(Frame::Ping)));
    assert!(matches!(ch.recv(), Received::Frame(Frame::Empty)));
    // The channel is free again.
    store_type(&mut ch, &Frame::Pong);
    assert!(matches!(ch.recv(), Received::Frame(Frame::Pong)));
    assert_eq!(words(&ch), (FRAME_NONE, 0, 0, 0));
}

#[test]
fn both_sides_wait() {
    assert!(matches!(Channel::wait_recv(5, 5, 1_000_000_001), Wait::Ready(5, 5)));
    assert!(matches!(Channel::wait_recv(5, 4, 1_000_000_001), Wait::Expired));
    assert!(matches!(Channel::wait_recv(5, 4, SYNC_TIME_OUT), Wait::Again));
    assert!(matches!(Channel::wait_send(5, 4, 1_000_000_001), Wait::Ready(5, 4)));
    assert!(matches!(Channel::wait_send(5, 5, 1_000_000_001), Wait::Expired));
    assert!(matches!(Channel::wait_send(5, 5, SYNC_TIME_OUT), Wait::Again));
    assert!(matches!(Channel::send_step(SendEvent::Waited(Wait::Again)), SendAction::Wait));
    assert!(matches!(
        Channel::collect_step(CollectEvent::Waited(Wait::Again)),
        CollectAction::Wait
    ));
}

#[test]
fn time_runs_out() {
    assert!(matches!(
        Channel::send_step(SendEvent::Waited(Wait::Expired)),
        SendAction::Done(false)
    ));
    assert!(matches!(
        Channel::collect_step(CollectEvent::Waited(Wait::Expired)),
        CollectAction::Finish(true)
    ));
    let mut ch = Channel { data_ty: FRAME_DATA, data_len: 4, sended: 2, recved: 0 };
    match ch.recv() {
        Received::Collect(mut c) => {
            let buf = [1u8; BUF_LEN];
            let taken = c.push(2, 0, &buf);
            assert_eq!(taken.recved, 2);
            assert!(!taken.last);
            ch.recved = taken.recved;
            assert!(matches!(c.finish(true, &mut ch), Frame::Timeout));
        }
        _ => panic!("no data"),
    }
    assert_eq!(words(&ch), (FRAME_NONE, 0, 0, 0));
}

#[test]
fn a_sender_starts_over_when_the_receiver_runs_out_of_time() {
    let data = bytes(5000);
    let mut buf = [0u8; BUF_LEN];
    let mut ch = empty();
    store_type(&mut ch, &Frame::Data(data.clone()));
    let mut collector = match ch.recv() {
        Received::Collect(c) => c,
        _ => panic!("no data"),
    };
    ch.sended = Channel::send_data(&data, 0, &mut buf).sended;
    ch.recved = collector.push(ch.sended, ch.recved, &buf).recved;
    assert!(matches!(collector.finish(true, &mut ch), Frame::Timeout));
    let waited = Channel::wait_recv(ch.sended, ch.recved, 0);
    assert!(matches!(Channel::send_step(SendEvent::Waited(waited)), SendAction::Put(0)));
    ch.sended = Channel::send_data(&data, 0, &mut buf).sended;
    let waited = Channel::wait_recv(ch.sended, ch.recved, SYNC_TIME_OUT + 1);
    assert!(matches!(
        Channel::send_step(SendEvent::Waited(waited)),
        SendAction::Done(false)
    ));
}

#[test]
fn the_ends_use_each_others_channels_and_events() {
    let client = ShmAdaptor::new(true);
    let server = ShmAdaptor::new(false);
    assert_eq!(client.send_channel(), ChannelId::Ch2);
    assert_eq!(client.recv_channel(), ChannelId::Ch1);
    assert_eq!(client.send_eid(), EVT_MASTER);
    assert_eq!(client.recv_eid(), EVT_SLAVER);
    assert_eq!(client.send_channel(), server.recv_channel());
    assert_eq!(server.send_channel(), client.recv_channel());
    assert_eq!(client.send_eid(), server.recv_eid());
    assert_eq!(server.send_eid(), client.recv_eid());
}

#[test]
fn frames_are_signalled() {
    let client = ShmAdaptor::new(true);
    assert!(matches!(
        client.send_frame(FrameEvent::Typed(Frame::Ping, false)),
        FrameAction::Return(false)
    ));
    match client.send_frame(FrameEvent::Typed(Frame::Ping, true)) {
        FrameAction::Signal { eid, data: None } => assert_eq!(eid, EVT_MASTER),
        _ => panic!("a ping has no data"),
    }
    match ShmAdaptor::new(false).send_frame(FrameEvent::Typed(Frame::Data(vec![4]), true)) {
        FrameAction::Signal { eid, data: Some(data) } => {
            assert_eq!(eid, EVT_SLAVER);
            assert_eq!(data, vec![4]);
        }
        _ => panic!("the data are kept"),
    }
}

#[test]
fn whether_a_frame_was_sent() {
    let client = ShmAdaptor::new(true);
    assert!(matches!(
        client.send_frame(FrameEvent::Signaled(None)),
        FrameAction::Return(true)
    ));
    match client.send_frame(FrameEvent::Signaled(Some(vec![4]))) {
        FrameAction::Send(data) => assert_eq!(data, vec![4]),
        _ => panic!("the data are sent"),
    }
    assert!(matches!(client.send_frame(FrameEvent::Sent(true)), FrameAction::Return(true)));
    assert!(matches!(client.send_frame(FrameEvent::Sent(false)), FrameAction::Return(false)));
}

#[test]
fn an_end_that_hears_nothing_gives_up() {
    let mut end = ShmAdaptor::new(false);
    let mut time = PingTime::new();
    for _ in 0..3 {
        assert!(matches!(end.recv(&mut time, RecvEvent::Silence), RecvAction::SendPing));
        assert!(end.connected());
    }
    assert!(matches!(
        end.recv(&mut time, RecvEvent::Silence),
        RecvAction::Disconnect(RecvError::Disconnect)
    ));
    assert!(!end.connected());
}

#[test]
fn an_end_that_is_answered_goes_on() {
    let mut end = ShmAdaptor::new(true);
    let mut time = PingTime::new();
    // An answer that nobody asked for counts for nothing.
    assert!(matches!(
        end.recv(&mut time, RecvEvent::Signaled(Frame::Pong)),
        RecvAction::Wait
    ));
    for _ in 0..100 {
        assert!(matches!(end.recv(&mut time, RecvEvent::Silence), RecvAction::SendPing));
        assert!(matches!(
            end.recv(&mut time, RecvEvent::Signaled(Frame::Pong)),
            RecvAction::Wait
        ));
    }
    assert!(matches!(
        end.recv(&mut time, RecvEvent::Signaled(Frame::Ping)),
        RecvAction::SendPong
    ));
    match end.recv(&mut time, RecvEvent::Signaled(Frame::Data(vec![1, 2]))) {
        RecvAction::Return(data) => assert_eq!(data, vec![1, 2]),
        _ => panic!("the data are returned"),
    }
    assert!(end.connected());
}
