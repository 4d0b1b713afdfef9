//! Messages of a WebSocket.

use easy_rpc::service::RecvError;
use easy_rpc::ws::{
    accept, is_disconnected, recv_message, AcceptAction, Message, MessageAction, MessageEvent,
    WebSocketFailure, WsAdaptor,
};

/// What a message that was read leads to.
fn read(message: Message) -> MessageAction<u8> {
    recv_message(MessageEvent::Read(Ok(message)))
}

#[test]
fn messages_and_what_they_lead_to() {
    assert!(matches!(recv_message(MessageEvent::<u8>::Start), MessageAction::Read));
    assert!(matches!(read(Message::Close), MessageAction::Reply(Message::Close)));
    match read(Message::Ping(vec![1, 2])) {
        MessageAction::Reply(Message::Pong(data)) => assert_eq!(data, vec![1, 2]),
        _ => panic!("a ping is answered"),
    }
    match read(Message::Binary(vec![3])) {
        MessageAction::Return(Ok(data)) => assert_eq!(data, vec![3]),
        _ => panic!("a packet is returned"),
    }
    assert!(matches!(read(Message::Pong(vec![1])), MessageAction::Read));
    assert!(matches!(read(Message::Text), MessageAction::Read));
    assert!(matches!(
        recv_message(MessageEvent::<u8>::Replied(Ok(()))),
        MessageAction::Read
    ));
}

#[test]
fn failures_are_returned() {
    assert!(matches!(
        recv_message(MessageEvent::Read(Err(7u8))),
        MessageAction::Return(Err(7))
    ));
    assert!(matches!(
        recv_message(MessageEvent::Replied(Err(8u8))),
        MessageAction::Return(Err(8))
    ));
}

/// Receives a packet while `inbox` comes in and sending fails from the reply number `broken` on.
/// Gives what is returned, and the number of messages that were read and that were sent.
fn receive(
    inbox: Vec<Message>,
    broken: usize,
) -> (Result<Vec<u8>, &'static str>, usize, usize) {
    let mut inbox = inbox.into_iter();
    let mut read = 0;
    let mut sent = 0;
    let mut event = MessageEvent::Start;
    loop {
        event = match recv_message(event) {
            MessageAction::Read => match inbox.next() {
                Some(message) => {
                    read += 1;
                    MessageEvent::Read(Ok(message))
                }
                None => MessageEvent::Read(Err("read")),
            },
            MessageAction::Reply(_) => {
                if sent >= broken {
                    MessageEvent::Replied(Err("reply"))
                } else {
                    sent += 1;
                    MessageEvent::Replied(Ok(()))
                }
            }
            MessageAction::Return(r) => return (r, read, sent),
        };
    }
}

fn inbox() -> Vec<Message> {
    vec![
        Message::Text,
        Message::Ping(vec![1]),
        Message::Close,
        Message::Binary(vec![7, 8]),
        Message::Binary(vec![9]),
    ]
}

#[test]
fn the_first_binary_message_is_the_packet() {
    assert_eq!(receive(inbox(), 9), (Ok(vec![7, 8]), 4, 2));
}

#[test]
fn the_first_failure_ends_the_reading() {
    assert_eq!(receive(inbox(), 1), (Err("reply"), 3, 1));
    assert_eq!(receive(inbox(), 0), (Err("reply"), 2, 0));
    assert_eq!(receive(vec![Message::Close], 9), (Err("read"), 1, 1));
    assert_eq!(receive(vec![], 9), (Err("read"), 0, 0));
}

#[test]
fn a_server_tries_until_a_handshake_succeeds() {
    assert!(matches!(accept(Some(Some(5))), AcceptAction::Return(5)));
    assert!(matches!(accept(Some(None::<u8>)), AcceptAction::Again));
    assert!(matches!(accept(None::<Option<u8>>), AcceptAction::Again));
}

#[test]
fn failures_that_end_the_connection() {
    assert!(is_disconnected(&WebSocketFailure::NoDataAvailable));
    assert!(is_disconnected(&WebSocketFailure::IoError));
    assert!(!is_disconnected(&WebSocketFailure::Other));
}

#[test]
fn a_failure_disconnects_for_good() {
    let mut end = WsAdaptor::new();
    assert!(end.connected());
    assert_eq!(end.recv(Ok(vec![1])), Ok(vec![1]));
    assert!(end.connected());
    assert_eq!(end.recv(Err(WebSocketFailure::IoError)), Err(RecvError::Disconnect));
    assert!(!end.connected());
    assert_eq!(end.recv(Ok(vec![2])), Ok(vec![2]));
    assert!(!end.connected());
}
