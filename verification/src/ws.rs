//! Packets through a WebSocket.

use crate::service::RecvError;
use vstd::prelude::*;

verus! {

/// A message, as far as it matters here.
pub enum Message {
    Close,
    Ping(Vec<u8>),
    Pong(Vec<u8>),
    Binary(Vec<u8>),
    /// Text, which is not used.
    Text,
}

/// What an end that receives a packet does next. `E` is a failure to read or to send.
pub enum MessageAction<E> {
    /// Read a message.
    Read,
    /// Send a message.
    Reply(Message),
    /// Return a packet, or the failure.
    Return(Result<Vec<u8>, E>),
}

/// What came of a [`MessageAction`].
pub enum MessageEvent<E> {
    Start,
    /// A message was read, or could not be.
    Read(Result<Message, E>),
    /// A message was sent, or could not be.
    Replied(Result<(), E>),
}

/// What an end that receives a packet does after `event`. A close is returned, a ping is answered
/// with a pong that carries the same data, a binary message is the packet, anything else is passed
/// over, and a failure is the end of it.
pub open spec fn next_message<E>(event: MessageEvent<E>) -> MessageAction<E> {
    match event {
        MessageEvent::Start => MessageAction::Read,
        MessageEvent::Read(Ok(Message::Close)) => MessageAction::Reply(Message::Close),
        MessageEvent::Read(Ok(Message::Ping(ping))) => MessageAction::Reply(Message::Pong(ping)),
        MessageEvent::Read(Ok(Message::Binary(msg))) => MessageAction::Return(Ok(msg)),
        MessageEvent::Read(Ok(_)) => MessageAction::Read,
        MessageEvent::Read(Err(e)) => MessageAction::Return(Err(e)),
        MessageEvent::Replied(Ok(_)) => MessageAction::Read,
        MessageEvent::Replied(Err(e)) => MessageAction::Return(Err(e)),
    }
}

/// What is returned as `events` happen, if anything is.
pub open spec fn returned<E>(events: Seq<MessageEvent<E>>) -> Option<Result<Vec<u8>, E>>
    decreases events.len(),
{
    if events.len() == 0 {
        None
    } else {
        match next_message(events[0]) {
            MessageAction::Return(r) => Some(r),
            _ => returned(events.skip(1)),
        }
    }
}

/// What ends the receiving of a packet, and with what: a binary message, or a failure to read or
/// to reply.
pub open spec fn ended_by<E>(event: MessageEvent<E>) -> Option<Result<Vec<u8>, E>> {
    match event {
        MessageEvent::Read(Ok(Message::Binary(msg))) => Some(Ok(msg)),
        MessageEvent::Read(Err(e)) => Some(Err(e)),
        MessageEvent::Replied(Err(e)) => Some(Err(e)),
        _ => None,
    }
}

/// Whatever comes before it, the first binary message is the packet that is returned, unless a
/// failure to read or to reply comes first, which is returned then. Up to there nothing is
/// returned, and what comes after does not matter: nothing more is read or sent.
pub proof fn first_end_is_returned<E>(events: Seq<MessageEvent<E>>, i: int)
    requires
        0 <= i < events.len(),
        ended_by(events[i]) is Some,
        forall|j: int| 0 <= j < i ==> ended_by(#[trigger] events[j]) is None,
    ensures
        returned(events) == ended_by(events[i]),
        returned(events.take(i)) is None,
        returned(events.take(i + 1)) == ended_by(events[i]),
    decreases events.len(),
{
    reveal_with_fuel(returned, 2);
    if i > 0 {
        first_end_is_returned(events.skip(1), i - 1);
        assert(events.take(i).skip(1) =~= events.skip(1).take(i - 1));
        assert(events.take(i + 1).skip(1) =~= events.skip(1).take(i));
    }
}

/// The messages that are sent as `events` happen, in order, up to the event that ends the
/// receiving.
pub open spec fn replies<E>(events: Seq<MessageEvent<E>>) -> Seq<Message>
    decreases events.len(),
{
    if events.len() == 0 {
        Seq::empty()
    } else {
        match next_message(events[0]) {
            MessageAction::Reply(message) => seq![message] + replies(events.skip(1)),
            MessageAction::Read => replies(events.skip(1)),
            MessageAction::Return(_) => Seq::empty(),
        }
    }
}

/// The answers that the messages that were read call for, in order, up to the event that ends the
/// receiving: a close for a close, and for a ping a pong with the same data.
pub open spec fn answers_due<E>(events: Seq<MessageEvent<E>>) -> Seq<Message>
    decreases events.len(),
{
    if events.len() == 0 || ended_by(events[0]) is Some {
        Seq::empty()
    } else {
        let rest = answers_due(events.skip(1));
        match events[0] {
            MessageEvent::Read(Ok(Message::Close)) => seq![Message::Close] + rest,
            MessageEvent::Read(Ok(Message::Ping(data))) => seq![Message::Pong(data)] + rest,
            _ => rest,
        }
    }
}

/// Every close and every ping is answered, in the order in which they were read, and nothing else
/// is sent.
pub proof fn every_answer_due_is_sent<E>(events: Seq<MessageEvent<E>>)
    ensures
        replies(events) == answers_due(events),
    decreases events.len(),
{
    if events.len() > 0 {
        every_answer_due_is_sent(events.skip(1));
    }
}

/// The next message is read at the start, after an answer was sent, and after a message that calls
/// for none and is no packet; and only then.
pub proof fn reading_goes_on<E>(event: MessageEvent<E>)
    ensures
        next_message(event) is Read <==> match event {
            MessageEvent::Start => true,
            MessageEvent::Read(Ok(message)) => message is Pong || message is Text,
            MessageEvent::Read(Err(_)) => false,
            MessageEvent::Replied(sent) => sent is Ok,
        },
        next_message(event) is Return <==> ended_by(event) is Some,
{
}

/// What an end that receives a packet does after `event`.
pub fn recv_message<E>(event: MessageEvent<E>) -> (r: MessageAction<E>)
    ensures
        r == next_message(event),
{
    match event {
        MessageEvent::Start => MessageAction::Read,
        MessageEvent::Read(Ok(message)) => match message {
            Message::Close => MessageAction::Reply(Message::Close),
            Message::Ping(ping) => MessageAction::Reply(Message::Pong(ping)),
            Message::Binary(msg) => MessageAction::Return(Ok(msg)),
            _ => MessageAction::Read,
        },
        MessageEvent::Read(Err(e)) => MessageAction::Return(Err(e)),
        MessageEvent::Replied(Ok(_)) => MessageAction::Read,
        MessageEvent::Replied(Err(e)) => MessageAction::Return(Err(e)),
    }
}

/// What a server does once it has tried to accept a connection.
pub enum AcceptAction<C> {
    /// Return the connection.
    Return(C),
    /// Try again.
    Again,
}

/// What a server does once it has tried to accept a connection. `connection` is nothing if nobody
/// connected, and holds nothing if the handshake failed.
pub fn accept<C>(connection: Option<Option<C>>) -> (r: AcceptAction<C>)
    ensures
        r == match connection {
            Some(Some(c)) => AcceptAction::Return(c),
            _ => AcceptAction::Again,
        },
{
    match connection {
        Some(Some(c)) => AcceptAction::Return(c),
        _ => AcceptAction::Again,
    }
}

/// Why no message was received.
#[derive(Debug, Clone, Copy, PartialEq, Eq, Structural)]
pub enum WebSocketFailure {
    NoDataAvailable,
    IoError,
    /// The other end does not keep to the protocol.
    Other,
}

/// Whether a failure means that the connection ended.
pub open spec fn ends_connection(err: WebSocketFailure) -> bool {
    err != WebSocketFailure::Other
}

/// Whether a failure means that the connection ended.
pub fn is_disconnected(err: &WebSocketFailure) -> (r: bool)
    ensures
        r == ends_connection(*err),
{
    match *err {
        WebSocketFailure::NoDataAvailable => true,
        WebSocketFailure::IoError => true,
        _ => false,
    }
}

/// One end of a connection through a WebSocket.
pub struct WsAdaptor {
    disconnected: bool,
}

impl WsAdaptor {
    /// Whether the connection still stands.
    pub closed spec fn is_connected(self) -> bool {
        !self.disconnected
    }

    /// An end with its connection.
    pub fn new() -> (r: WsAdaptor)
        ensures
            r.is_connected(),
    {
        WsAdaptor { disconnected: false }
    }

    /// What receiving a packet comes to, where `received` is the packet or the failure. A failure
    /// ends the connection.
    pub fn recv(&mut self, received: Result<Vec<u8>, WebSocketFailure>) -> (r: Result<
        Vec<u8>,
        RecvError,
    >)
        requires
            received matches Err(e) ==> ends_connection(e),
        ensures
            match received {
                Ok(data) => r == Ok::<Vec<u8>, RecvError>(data) && final(self).is_connected()
                    == old(self).is_connected(),
                Err(_) => r == Err::<Vec<u8>, RecvError>(RecvError::Disconnect) && !final(self).is_connected(),
            },
    {
        match received {
            Ok(data) => Ok(data),
            Err(_) => {
                self.disconnected = true;
                Err(RecvError::Disconnect)
            },
        }
    }

    /// Whether the connection still stands.
    pub fn connected(&self) -> (r: bool)
        ensures
            r == self.is_connected(),
    {
        !self.disconnected
    }
}

} // verus!
