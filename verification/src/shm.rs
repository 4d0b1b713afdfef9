//! Packets through shared memory.
//!
//! Two channels lie in the shared memory, one for each direction. A channel has four words, which
//! both ends read and write, and a buffer. The sender sets the type of the frame. If the frame has
//! data, the sender then puts them into the buffer piece by piece, and the receiver takes each
//! piece out before the next one follows.
//!
//! What is said here is what each end does with the words that it has read.

use crate::service::RecvError;
use vstd::prelude::*;

verus! {

/// The size of the buffer of a channel.
pub const BUF_LEN: usize = 2048;

pub const FRAME_NONE: u32 = 0;

pub const FRAME_PING: u32 = 1;

pub const FRAME_PONG: u32 = 2;

pub const FRAME_DATA: u32 = 3;

/// How long, in nanoseconds, an end waits for a word.
pub const SYNC_TIME_OUT: u128 = 1_000_000_000;

/// What goes through a channel.
pub enum Frame {
    Empty,
    Ping,
    Pong,
    /// Data that did not come to an end in time.
    Timeout,
    Data(Vec<u8>),
}

/// The words of a channel.
pub struct Channel {
    /// The type of the frame that is in the channel.
    pub data_ty: u32,
    /// The number of bytes in the frame.
    pub data_len: u32,
    /// The number of bytes that the sender has put into the buffer so far.
    pub sended: u32,
    /// The number of bytes that the receiver has taken out so far.
    pub recved: u32,
}

/// What waiting for a word comes to.
pub enum Wait {
    /// The numbers of bytes sent and received.
    Ready(u32, u32),
    /// It took too long.
    Expired,
    /// Read the words again.
    Again,
}

/// What the sender does about the type of a frame.
pub enum TypeAction {
    /// The channel is still taken: read the type again.
    Again,
    /// The channel was taken for too long.
    Expired,
    /// Write the type, and the number of bytes if there is one.
    Store { data_ty: u32, data_len: Option<u32> },
}

/// A piece of data that was put into the buffer.
pub struct Piece {
    /// The number of bytes sent with it.
    pub sended: u32,
    /// Whether it is the last one.
    pub last: bool,
}

/// A piece of data that was taken out of the buffer.
pub struct Taken {
    /// The number of bytes received with it.
    pub recved: u32,
    /// Whether it is the last one.
    pub last: bool,
}

/// What the receiver finds in a channel.
pub enum Received {
    /// A frame without data.
    Frame(Frame),
    /// Data whose length is not known yet.
    Unsized,
    /// Data, which are to be collected.
    Collect(Collector),
}

/// What the sender of data does next.
pub enum SendAction {
    /// Put the piece that follows so many bytes into the buffer.
    Put(u32),
    /// Wait until the receiver has taken it out.
    Wait,
    /// Return whether all data were sent.
    Done(bool),
}

/// What came of a [`SendAction`].
pub enum SendEvent {
    Start,
    /// A piece is in the buffer; whether it is the last one.
    Put(bool),
    Waited(Wait),
}

/// What the sender of data does after `event`.
pub open spec fn next_send(event: SendEvent) -> SendAction {
    match event {
        SendEvent::Start => SendAction::Put(0),
        SendEvent::Put(last) => if last {
            SendAction::Done(true)
        } else {
            SendAction::Wait
        },
        SendEvent::Waited(Wait::Ready(sended, _)) => SendAction::Put(sended),
        SendEvent::Waited(Wait::Expired) => SendAction::Done(false),
        SendEvent::Waited(Wait::Again) => SendAction::Wait,
    }
}

/// What the receiver of data does next.
pub enum CollectAction {
    /// Wait until the sender has put something into the buffer.
    Wait,
    /// Take out the piece between so many bytes sent and so many received.
    Take(u32, u32),
    /// Make the channel empty, and return the frame; whether time was up.
    Finish(bool),
}

/// What came of a [`CollectAction`].
pub enum CollectEvent {
    Start,
    Waited(Wait),
    /// A piece was taken out; whether it is the last one.
    Taken(bool),
}

/// What the receiver of data does after `event`.
pub open spec fn next_collect(event: CollectEvent) -> CollectAction {
    match event {
        CollectEvent::Start => CollectAction::Wait,
        CollectEvent::Waited(Wait::Ready(sended, recved)) => CollectAction::Take(sended, recved),
        CollectEvent::Waited(Wait::Expired) => CollectAction::Finish(true),
        CollectEvent::Waited(Wait::Again) => CollectAction::Wait,
        CollectEvent::Taken(last) => if last {
            CollectAction::Finish(false)
        } else {
            CollectAction::Wait
        },
    }
}

/// How many bytes of `len` follow the first `sended` in one piece.
pub open spec fn piece_len(len: nat, sended: nat) -> nat {
    if len - sended < BUF_LEN {
        (len - sended) as nat
    } else {
        BUF_LEN as nat
    }
}

/// The piece of `data` that follows the first `sended` bytes.
pub open spec fn piece(data: Seq<u8>, sended: nat) -> Seq<u8> {
    data.subrange(sended as int, (sended + piece_len(data.len(), sended)) as int)
}

/// The buffer `buf` with `bytes` put at its start.
pub open spec fn filled(buf: Seq<u8>, bytes: Seq<u8>) -> Seq<u8> {
    bytes + buf.skip(bytes.len() as int)
}

/// The number of bytes sent once the piece after the first `sended` bytes of `len` was put into
/// the buffer, as far as a word can hold it.
pub open spec fn sended_after(len: nat, sended: nat) -> nat {
    (sended + piece_len(len, sended)) % 0x1_0000_0000
}

/// Whether the piece after the first `sended` bytes of `len` is the last one.
pub open spec fn is_last(len: nat, sended: nat) -> bool {
    sended + piece_len(len, sended) >= len
}

/// What the receiver has collected once it has added a piece to `got`: the bytes at the start of
/// the buffer that were sent and not yet received.
pub open spec fn collected(got: Seq<u8>, buf: Seq<u8>, sended: u32, recved: u32) -> Seq<u8> {
    got + buf.take(sended - recved)
}

/// What the receiver knows once it has taken out a piece, of a frame with `data_size` bytes.
pub open spec fn taken(sended: u32, data_size: nat) -> Taken {
    Taken { recved: sended, last: sended >= data_size }
}

/// What the sender's wait comes to that has taken `elapsed` nanoseconds so far, if these are the
/// numbers of bytes sent and received.
pub open spec fn waited_recv(sended: u32, recved: u32, elapsed: u128) -> Wait {
    if recved == sended {
        Wait::Ready(sended, recved)
    } else if elapsed > SYNC_TIME_OUT {
        Wait::Expired
    } else {
        Wait::Again
    }
}

/// What the receiver's wait comes to that has taken `elapsed` nanoseconds so far, if these are
/// the numbers of bytes sent and received.
pub open spec fn waited_send(sended: u32, recved: u32, elapsed: u128) -> Wait {
    if sended > recved {
        Wait::Ready(sended, recved)
    } else if elapsed > SYNC_TIME_OUT {
        Wait::Expired
    } else {
        Wait::Again
    }
}

/// The type of a frame that can be sent.
pub open spec fn type_word(frame: Frame) -> u32 {
    match frame {
        Frame::Ping => FRAME_PING,
        Frame::Pong => FRAME_PONG,
        Frame::Data(_) => FRAME_DATA,
        _ => FRAME_NONE,
    }
}

/// The number of bytes in a frame, as far as a word can hold it, if the frame has data.
pub open spec fn len_word(frame: Frame) -> Option<u32> {
    match frame {
        Frame::Data(d) => Some((d@.len() % 0x1_0000_0000) as u32),
        _ => None,
    }
}

/// Whether `received` is what the receiver finds in a channel with the type `data_ty` and the
/// length `data_len`.
pub open spec fn is_found(data_ty: u32, data_len: u32, received: Received) -> bool {
    match data_ty {
        FRAME_NONE => received == Received::Frame(Frame::Empty),
        FRAME_PING => received == Received::Frame(Frame::Ping),
        FRAME_PONG => received == Received::Frame(Frame::Pong),
        _ => if data_len == 0 {
            received == Received::Unsized
        } else {
            received matches Received::Collect(c) && c@ == Seq::<u8>::empty() && c.data_size()
                == data_len
        },
    }
}

/// What the sender of `frame` does when the type in the channel is `data_ty`, and the wait for the
/// channel has taken `elapsed` nanoseconds so far.
pub open spec fn type_action(frame: Frame, data_ty: u32, elapsed: u128) -> TypeAction {
    if data_ty != FRAME_NONE {
        if elapsed > SYNC_TIME_OUT {
            TypeAction::Expired
        } else {
            TypeAction::Again
        }
    } else {
        TypeAction::Store { data_ty: type_word(frame), data_len: len_word(frame) }
    }
}

/// The channel after the sender has written the type of a frame, and its length if it has data.
pub open spec fn typed(ch: Channel, data_ty: u32, data_len: Option<u32>) -> Channel {
    Channel {
        data_ty,
        data_len: match data_len {
            Some(len) => len,
            None => ch.data_len,
        },
        ..ch
    }
}

/// The channel after the receiver has found something in it. With a frame that has no data, the
/// type is cleared, and nothing else; otherwise the channel is left as it is.
pub open spec fn after_found(ch: Channel) -> Channel {
    if ch.data_ty == FRAME_DATA {
        ch
    } else {
        Channel { data_ty: FRAME_NONE, ..ch }
    }
}

/// An empty channel.
pub open spec fn empty_channel() -> Channel {
    Channel { data_ty: FRAME_NONE, data_len: 0, sended: 0, recved: 0 }
}

impl Channel {
    /// Makes the channel empty.
    pub fn init(&mut self)
        ensures
            *final(self) == empty_channel(),
    {
        self.data_ty = FRAME_NONE;
        self.data_len = 0;
        self.sended = 0;
        self.recved = 0;
    }

    /// Whether the receiver has taken out all that was sent, where the wait has taken `elapsed`
    /// nanoseconds so far.
    pub fn wait_recv(sended: u32, recved: u32, elapsed: u128) -> (r: Wait)
        ensures
            r == waited_recv(sended, recved, elapsed),
    {
        if recved == sended {
            Wait::Ready(sended, recved)
        } else if elapsed > SYNC_TIME_OUT {
            Wait::Expired
        } else {
            Wait::Again
        }
    }

    /// What the sender of `frame` does when the type in the channel is `data_ty`, and the wait for
    /// the channel has taken `elapsed` nanoseconds so far.
    pub fn send_type(frame: &Frame, data_ty: u32, elapsed: u128) -> (r: TypeAction)
        requires
            data_ty == FRAME_NONE ==> *frame is Ping || *frame is Pong || *frame is Data,
        ensures
            r == type_action(*frame, data_ty, elapsed),
    {
        if data_ty != FRAME_NONE {
            if elapsed > SYNC_TIME_OUT {
                return TypeAction::Expired;
            }
            return TypeAction::Again;
        }
        match frame {
            Frame::Ping => TypeAction::Store { data_ty: FRAME_PING, data_len: None },
            Frame::Pong => TypeAction::Store { data_ty: FRAME_PONG, data_len: None },
            Frame::Data(d) => {
                let len: u64 = d.len() as u64;
                assert(len as u32 == len % 0x1_0000_0000) by (bit_vector);
                TypeAction::Store { data_ty: FRAME_DATA, data_len: Some(len as u32) }
            },
            _ => vstd::pervasive::unreached(),
        }
    }

    /// Puts the piece of `data` that follows the first `sended` bytes into the buffer.
    pub fn send_data(data: &[u8], sended: u32, buf: &mut [u8; BUF_LEN]) -> (r: Piece)
        requires
            sended <= data@.len(),
        ensures
            final(buf)@ == filled(old(buf)@, piece(data@, sended as nat)),
            r.sended == sended_after(data@.len(), sended as nat),
            r.last == is_last(data@.len(), sended as nat),
    {
        let start: usize = sended as usize;
        let rest_size: usize = data.len() - start;
        let size: usize = if rest_size < BUF_LEN {
            rest_size
        } else {
            BUF_LEN
        };
        let mut i: usize = 0;
        while i < size
            invariant
                i <= size <= BUF_LEN,
                start + size <= data.len(),
                buf@.len() == BUF_LEN,
                old(buf)@.len() == BUF_LEN,
                forall|j: int|
                    0 <= j < BUF_LEN ==> #[trigger] buf@[j] == if j < i {
                        data@[start + j]
                    } else {
                        old(buf)@[j]
                    },
            decreases size - i,
        {
            buf[i] = data[start + i];
            i += 1;
        }
        assert(buf@ =~= filled(old(buf)@, piece(data@, sended as nat)));
        let after_size: u64 = (start + size) as u64;
        assert(after_size as u32 == after_size % 0x1_0000_0000) by (bit_vector);
        Piece { sended: after_size as u32, last: start + size >= data.len() }
    }

    /// What the sender of data does after `event`.
    pub fn send_step(event: SendEvent) -> (r: SendAction)
        ensures
            r == next_send(event),
    {
        match event {
            SendEvent::Start => SendAction::Put(0),
            SendEvent::Put(last) => if last {
                SendAction::Done(true)
            } else {
                SendAction::Wait
            },
            SendEvent::Waited(Wait::Ready(sended, _)) => SendAction::Put(sended),
            SendEvent::Waited(Wait::Expired) => SendAction::Done(false),
            SendEvent::Waited(Wait::Again) => SendAction::Wait,
        }
    }

    /// Whether the sender has put something into the buffer, where the wait has taken `elapsed`
    /// nanoseconds so far.
    pub fn wait_send(sended: u32, recved: u32, elapsed: u128) -> (r: Wait)
        ensures
            r == waited_send(sended, recved, elapsed),
    {
        if sended > recved {
            Wait::Ready(sended, recved)
        } else if elapsed > SYNC_TIME_OUT {
            Wait::Expired
        } else {
            Wait::Again
        }
    }

    /// What the receiver of data does after `event`.
    pub fn collect_step(event: CollectEvent) -> (r: CollectAction)
        ensures
            r == next_collect(event),
    {
        match event {
            CollectEvent::Start => CollectAction::Wait,
            CollectEvent::Waited(Wait::Ready(sended, recved)) => CollectAction::Take(
                sended,
                recved,
            ),
            CollectEvent::Waited(Wait::Expired) => CollectAction::Finish(true),
            CollectEvent::Waited(Wait::Again) => CollectAction::Wait,
            CollectEvent::Taken(last) => if last {
                CollectAction::Finish(false)
            } else {
                CollectAction::Wait
            },
        }
    }

    /// What the receiver finds in the channel, and what it leaves there.
    pub fn recv(&mut self) -> (r: Received)
        requires
            old(self).data_ty <= FRAME_DATA,
        ensures
            is_found(old(self).data_ty, old(self).data_len, r),
            *final(self) == after_found(*old(self)),
    {
        let received = match self.data_ty {
            FRAME_NONE => Received::Frame(Frame::Empty),
            FRAME_PING => Received::Frame(Frame::Ping),
            FRAME_PONG => Received::Frame(Frame::Pong),
            _ => {
                if self.data_len == 0 {
                    return Received::Unsized;
                }
                let data = Vec::with_capacity(self.data_len as usize);
                return Received::Collect(Collector { data, data_size: self.data_len });
            },
        };
        self.data_ty = FRAME_NONE;
        received
    }
}

/// The data of a frame as far as they have been received.
pub struct Collector {
    data: Vec<u8>,
    data_size: u32,
}

impl View for Collector {
    type V = Seq<u8>;

    closed spec fn view(&self) -> Seq<u8> {
        self.data@
    }
}

impl Collector {
    /// The number of bytes in the frame.
    pub closed spec fn data_size(self) -> u32 {
        self.data_size
    }

    /// Takes a piece out of the buffer. The words say that `sended` bytes were sent and `recved`
    /// received before.
    pub fn push(&mut self, sended: u32, recved: u32, buf: &[u8; BUF_LEN]) -> (r: Taken)
        requires
            recved < sended <= recved + BUF_LEN,
        ensures
            final(self)@ == collected(old(self)@, buf@, sended, recved),
            final(self).data_size() == old(self).data_size(),
            r == taken(sended, old(self).data_size() as nat),
    {
        let size: usize = (sended - recved) as usize;
        let mut i: usize = 0;
        while i < size
            invariant
                i <= size <= BUF_LEN,
                self.data@ == old(self).data@ + buf@.take(i as int),
                self.data_size == old(self).data_size,
            decreases size - i,
        {
            self.data.push(buf[i]);
            i += 1;
            assert(self.data@ =~= old(self).data@ + buf@.take(i as int));
        }
        Taken { recved: sended, last: sended >= self.data_size }
    }

    /// The frame: its data, unless they did not come to an end in time. Either way the channel is
    /// made empty.
    pub fn finish(self, timeout: bool, ch: &mut Channel) -> (r: Frame)
        ensures
            *final(ch) == empty_channel(),
            match r {
                Frame::Timeout => timeout,
                Frame::Data(d) => !timeout && d@ == self@,
                _ => false,
            },
    {
        ch.init();
        if timeout {
            Frame::Timeout
        } else {
            Frame::Data(self.data)
        }
    }
}

/// One of the two channels.
#[derive(Debug, Clone, Copy, PartialEq, Eq, Structural)]
pub enum ChannelId {
    Ch1,
    Ch2,
}

/// The event that the server waits for.
pub const EVT_MASTER: usize = 0;

/// The event that the client waits for.
pub const EVT_SLAVER: usize = 1;

/// What an end that sends a frame does next.
pub enum FrameAction {
    /// Signal the event `eid`, and keep the data, if there are any, for afterwards.
    Signal { eid: usize, data: Option<Vec<u8>> },
    /// Send the data.
    Send(Vec<u8>),
    /// Return whether the frame was sent.
    Return(bool),
}

/// What came of a [`FrameAction`].
pub enum FrameEvent {
    /// The type of the frame was written, or could not be.
    Typed(Frame, bool),
    /// The event was signalled; the data are still to be sent, if there are any.
    Signaled(Option<Vec<u8>>),
    /// The data were sent, or could not be.
    Sent(bool),
}

/// What an end that signals the event `eid` does with a frame after `event`. A frame whose type
/// could not be written is not sent, one without data is sent once it was signalled, and one with
/// data is sent if its data are.
pub open spec fn next_frame(eid: usize, event: FrameEvent) -> FrameAction {
    match event {
        FrameEvent::Typed(_, false) => FrameAction::Return(false),
        FrameEvent::Typed(Frame::Data(d), true) => FrameAction::Signal { eid, data: Some(d) },
        FrameEvent::Typed(_, true) => FrameAction::Signal { eid, data: None },
        FrameEvent::Signaled(Some(d)) => FrameAction::Send(d),
        FrameEvent::Signaled(None) => FrameAction::Return(true),
        FrameEvent::Sent(sent) => FrameAction::Return(sent),
    }
}

/// How long, in milliseconds, an end waits for a frame before it asks whether the other end is
/// still there.
pub const CELL_TIMEOUT: usize = 100;

/// For how long an end lets its questions go unanswered.
pub const PING_LIMIT: usize = 200;

/// For how long, in milliseconds, the other end has not answered.
pub struct PingTime {
    time: usize,
}

impl View for PingTime {
    type V = nat;

    closed spec fn view(&self) -> nat {
        self.time as nat
    }
}

/// What waiting for a frame comes to.
pub enum RecvEvent {
    /// The event was signalled, and this is the frame.
    Signaled(Frame),
    /// Nothing came.
    Silence,
}

/// What an end that waits for data does next.
pub enum RecvAction {
    /// Return the data.
    Return(Vec<u8>),
    /// Answer that it is still there, then wait on.
    SendPong,
    /// Ask whether the other end is still there, then wait on.
    SendPing,
    /// Wait on.
    Wait,
    /// Return that the connection ended.
    Disconnect(RecvError),
}

/// The time without an answer after a time without a frame; nothing if the connection counts as
/// ended.
pub open spec fn after_silence(time: nat) -> Option<nat> {
    if time > PING_LIMIT {
        None
    } else {
        Some(time + CELL_TIMEOUT as nat)
    }
}

/// The time without an answer after an answer.
pub open spec fn after_pong(time: nat) -> nat {
    if time > 0 {
        (time - CELL_TIMEOUT) as nat
    } else {
        0
    }
}

impl PingTime {
    /// Time passes in steps.
    #[verifier::type_invariant]
    spec fn in_steps(self) -> bool {
        self.time % CELL_TIMEOUT == 0 && self.time <= PING_LIMIT + CELL_TIMEOUT
    }

    /// No time yet.
    pub fn new() -> (r: PingTime)
        ensures
            r@ == 0,
    {
        PingTime { time: 0 }
    }
}

/// One end of a connection through shared memory.
pub struct ShmAdaptor {
    client: bool,
    connected: bool,
}

impl ShmAdaptor {
    /// Whether this end opened the memory that the other end had created.
    pub closed spec fn is_client(self) -> bool {
        self.client
    }

    /// Whether the connection still stands.
    pub closed spec fn is_connected(self) -> bool {
        self.connected
    }

    /// An end with its connection.
    pub fn new(client: bool) -> (r: ShmAdaptor)
        ensures
            r.is_client() == client,
            r.is_connected(),
    {
        ShmAdaptor { client, connected: true }
    }

    /// The channel that this end sends through.
    pub fn send_channel(&self) -> (r: ChannelId)
        ensures
            r == send_channel_of(self.is_client()),
    {
        if self.client {
            ChannelId::Ch2
        } else {
            ChannelId::Ch1
        }
    }

    /// The channel that this end receives through.
    pub fn recv_channel(&self) -> (r: ChannelId)
        ensures
            r == recv_channel_of(self.is_client()),
    {
        if self.client {
            ChannelId::Ch1
        } else {
            ChannelId::Ch2
        }
    }

    /// The event that this end signals.
    pub fn send_eid(&self) -> (r: usize)
        ensures
            r == send_eid_of(self.is_client()),
    {
        if self.client {
            EVT_MASTER
        } else {
            EVT_SLAVER
        }
    }

    /// The event that this end waits for.
    pub fn recv_eid(&self) -> (r: usize)
        ensures
            r == recv_eid_of(self.is_client()),
    {
        if self.client {
            EVT_SLAVER
        } else {
            EVT_MASTER
        }
    }

    /// What this end does with a frame after `event`.
    pub fn send_frame(&self, event: FrameEvent) -> (r: FrameAction)
        ensures
            r == next_frame(send_eid_of(self.is_client()), event),
    {
        match event {
            FrameEvent::Typed(frame, typed) => {
                if !typed {
                    return FrameAction::Return(false);
                }
                let data = match frame {
                    Frame::Data(d) => Some(d),
                    _ => None,
                };
                FrameAction::Signal { eid: self.send_eid(), data }
            },
            FrameEvent::Signaled(Some(data)) => FrameAction::Send(data),
            FrameEvent::Signaled(None) => FrameAction::Return(true),
            FrameEvent::Sent(sent) => FrameAction::Return(sent),
        }
    }

    /// What this end, which waits for data, does after `event`. There is always a frame behind
    /// the event, and its data come in time.
    pub fn recv(&mut self, ping_time: &mut PingTime, event: RecvEvent) -> (r: RecvAction)
        requires
            event matches RecvEvent::Signaled(frame) ==> frame is Data || frame is Ping
                || frame is Pong,
        ensures
            final(self).is_client() == old(self).is_client(),
            match event {
                RecvEvent::Signaled(Frame::Data(d)) => r == RecvAction::Return(d)
                    && final(ping_time)@ == old(ping_time)@,
                RecvEvent::Signaled(Frame::Ping) => r == RecvAction::SendPong && final(ping_time)@
                    == old(ping_time)@,
                RecvEvent::Signaled(_) => r == RecvAction::Wait && final(ping_time)@ == after_pong(
                    old(ping_time)@,
                ),
                RecvEvent::Silence => match after_silence(old(ping_time)@) {
                    None => r == RecvAction::Disconnect(RecvError::Disconnect) && final(ping_time)@ == old(ping_time)@,
                    Some(time) => r == RecvAction::SendPing && final(ping_time)@ == time,
                },
            },
            final(self).is_connected() == (old(self).is_connected() && !(r is Disconnect)),
    {
        proof {
            use_type_invariant(&*ping_time);
        }
        match event {
            RecvEvent::Signaled(Frame::Data(data)) => RecvAction::Return(data),
            RecvEvent::Signaled(Frame::Ping) => RecvAction::SendPong,
            RecvEvent::Signaled(_) => {
                if ping_time.time > 0 {
                    ping_time.time = ping_time.time - CELL_TIMEOUT;
                }
                RecvAction::Wait
            },
            RecvEvent::Silence => {
                if ping_time.time > PING_LIMIT {
                    self.connected = false;
                    RecvAction::Disconnect(RecvError::Disconnect)
                } else {
                    ping_time.time = ping_time.time + CELL_TIMEOUT;
                    RecvAction::SendPing
                }
            },
        }
    }

    /// Whether the connection still stands.
    pub fn connected(&self) -> (r: bool)
        ensures
            r == self.is_connected(),
    {
        self.connected
    }
}

/// The channel that the client or the server sends through.
pub open spec fn send_channel_of(client: bool) -> ChannelId {
    if client {
        ChannelId::Ch2
    } else {
        ChannelId::Ch1
    }
}

/// The channel that the client or the server receives through.
pub open spec fn recv_channel_of(client: bool) -> ChannelId {
    if client {
        ChannelId::Ch1
    } else {
        ChannelId::Ch2
    }
}

/// The event that the client or the server signals.
pub open spec fn send_eid_of(client: bool) -> usize {
    if client {
        EVT_MASTER
    } else {
        EVT_SLAVER
    }
}

/// The event that the client or the server waits for.
pub open spec fn recv_eid_of(client: bool) -> usize {
    if client {
        EVT_SLAVER
    } else {
        EVT_MASTER
    }
}

} // verus!
