//! What holds of the two ends of a connection through shared memory.

use crate::shm;
use crate::shm::{
    Channel, ChannelId, CollectAction, CollectEvent, Frame, FrameAction, FrameEvent, Received,
    SendAction, SendEvent, TypeAction, Wait, FRAME_NONE,
};
use vstd::prelude::*;

verus! {

/// What one end sends through is what the other end receives through, and the event that one end
/// signals is the one that the other end waits for. The two directions are kept apart.
pub proof fn ends_meet(client: bool)
    ensures
        shm::send_channel_of(client) == shm::recv_channel_of(!client),
        shm::send_eid_of(client) == shm::recv_eid_of(!client),
        shm::send_channel_of(client) != shm::recv_channel_of(client),
        shm::send_eid_of(client) != shm::recv_eid_of(client),
{
}

/// The receiver finds the frame that the sender wrote, or a collector for its data.
pub proof fn frame_is_found(frame: Frame, data_len: u32, received: Received)
    requires
        frame is Ping || frame is Pong || (frame matches Frame::Data(d) && 0 < d@.len()
            <= u32::MAX),
        shm::len_word(frame) matches Some(len) ==> len == data_len,
        shm::is_found(shm::type_word(frame), data_len, received),
    ensures
        match frame {
            Frame::Data(d) => received matches Received::Collect(c) && c@ == Seq::<u8>::empty()
                && c.data_size() == d@.len(),
            _ => received == Received::Frame(frame),
        },
{
}

/// A frame without data is received once: the receiver finds it, the channel is free after that,
/// with its other words as they were, and whoever looks again finds nothing.
pub proof fn control_frame_is_received_once(
    ch: Channel,
    frame: Frame,
    first: Received,
    second: Received,
    next: Frame,
    elapsed: u128,
)
    requires
        frame is Ping || frame is Pong,
        ch.data_ty == FRAME_NONE,
        ({
            let sent = shm::typed(ch, shm::type_word(frame), shm::len_word(frame));
            let after = shm::after_found(sent);
            &&& shm::is_found(sent.data_ty, sent.data_len, first)
            &&& shm::is_found(after.data_ty, after.data_len, second)
        }),
    ensures
        first == Received::Frame(frame),
        second == Received::Frame(Frame::Empty),
        ({
            let sent = shm::typed(ch, shm::type_word(frame), shm::len_word(frame));
            let after = shm::after_found(sent);
            &&& after == ch
            &&& shm::type_action(next, after.data_ty, elapsed) is Store
        }),
{
}

/// A channel is free for any frame once it was made empty.
pub proof fn empty_channel_is_free(frame: Frame, elapsed: u128)
    ensures
        shm::type_action(frame, shm::empty_channel().data_ty, elapsed) == (TypeAction::Store {
            data_ty: shm::type_word(frame),
            data_len: shm::len_word(frame),
        }),
{
}

/// What the receiver of data is at.
pub enum Receiver {
    /// It does this next.
    Does(CollectAction),
    /// It has returned; whether time was up.
    Returned(bool),
}

/// A channel while data go through it, with what each end is at.
pub struct Transfer {
    pub sended: u32,
    pub recved: u32,
    pub buf: Seq<u8>,
    /// What the receiver has collected.
    pub got: Seq<u8>,
    pub sender: SendAction,
    pub receiver: Receiver,
}

/// A channel in which nothing was sent yet, with `buf` in its buffer.
pub open spec fn at_first(buf: Seq<u8>) -> Transfer {
    Transfer {
        sended: shm::empty_channel().sended,
        recved: shm::empty_channel().recved,
        buf,
        got: Seq::empty(),
        sender: shm::next_send(SendEvent::Start),
        receiver: Receiver::Does(shm::next_collect(CollectEvent::Start)),
    }
}

/// What the sender of `data` makes of the channel in one step, where its wait has taken `elapsed`
/// nanoseconds so far.
pub open spec fn after_sender(data: Seq<u8>, t: Transfer, elapsed: u128) -> Transfer {
    match t.sender {
        SendAction::Put(sended) => Transfer {
            sended: shm::sended_after(data.len(), sended as nat) as u32,
            buf: shm::filled(t.buf, shm::piece(data, sended as nat)),
            sender: shm::next_send(SendEvent::Put(shm::is_last(data.len(), sended as nat))),
            ..t
        },
        SendAction::Wait => Transfer {
            sender: shm::next_send(
                SendEvent::Waited(shm::waited_recv(t.sended, t.recved, elapsed)),
            ),
            ..t
        },
        SendAction::Done(_) => t,
    }
}

/// What the receiver of `data_size` bytes makes of the channel in one step, where its wait has
/// taken `elapsed` nanoseconds so far. When it finishes, in time or not, it makes the channel
/// empty.
pub open spec fn after_receiver(data_size: nat, t: Transfer, elapsed: u128) -> Transfer {
    match t.receiver {
        Receiver::Does(CollectAction::Wait) => Transfer {
            receiver: Receiver::Does(
                shm::next_collect(
                    CollectEvent::Waited(shm::waited_send(t.sended, t.recved, elapsed)),
                ),
            ),
            ..t
        },
        Receiver::Does(CollectAction::Take(sended, recved)) => Transfer {
            recved: shm::taken(sended, data_size).recved,
            got: shm::collected(t.got, t.buf, sended, recved),
            receiver: Receiver::Does(
                shm::next_collect(CollectEvent::Taken(shm::taken(sended, data_size).last)),
            ),
            ..t
        },
        Receiver::Does(CollectAction::Finish(timeout)) => Transfer {
            sended: shm::empty_channel().sended,
            recved: shm::empty_channel().recved,
            receiver: Receiver::Returned(timeout),
            ..t
        },
        Receiver::Returned(_) => t,
    }
}

/// One step of either end.
pub enum Step {
    /// A step of the sender, whose wait has taken so long.
    Sender(u128),
    /// A step of the receiver, whose wait has taken so long.
    Receiver(u128),
}

/// The channel after `steps`, in whatever order the two ends took them.
pub open spec fn after_steps(data: Seq<u8>, t: Transfer, steps: Seq<Step>) -> Transfer
    decreases steps.len(),
{
    if steps.len() == 0 {
        t
    } else {
        let before = after_steps(data, t, steps.drop_last());
        match steps.last() {
            Step::Sender(elapsed) => after_sender(data, before, elapsed),
            Step::Receiver(elapsed) => after_receiver(data.len(), before, elapsed),
        }
    }
}

/// What holds of a channel until the receiver of `data`, which is to do `next`, has finished.
pub open spec fn going_through(data: Seq<u8>, t: Transfer, next: CollectAction) -> bool {
    &&& t.recved <= t.sended <= data.len()
    &&& t.sended <= t.recved + shm::BUF_LEN
    &&& t.got == data.take(t.recved as int)
    &&& t.buf.take(t.sended - t.recved) == data.subrange(t.recved as int, t.sended as int)
    &&& match t.sender {
        SendAction::Put(sended) => sended == t.sended == t.recved < data.len(),
        SendAction::Wait => shm::BUF_LEN <= t.sended < data.len(),
        SendAction::Done(sent) => sent == (t.sended == data.len()),
    }
    &&& match next {
        CollectAction::Wait => t.recved < data.len(),
        CollectAction::Take(sended, recved) => recved == t.recved < sended == t.sended,
        CollectAction::Finish(timeout) => timeout == (t.recved < data.len()),
    }
}

/// What holds of a channel at any time while `data` go through it. Once the receiver has finished
/// in time, it has the data, the sender is done, and the channel is empty. Once the receiver has
/// run out of time, it has the start of the data, and the sender, which does not know, still sends
/// pieces of the data.
pub open spec fn in_order(data: Seq<u8>, t: Transfer) -> bool {
    &&& t.buf.len() == shm::BUF_LEN
    &&& match t.receiver {
        Receiver::Does(next) => going_through(data, t, next),
        Receiver::Returned(false) => t.got == data && t.sender == SendAction::Done(true)
            && t.sended == t.recved == 0,
        Receiver::Returned(true) => {
            &&& t.got.len() < data.len()
            &&& t.got == data.take(t.got.len() as int)
            &&& t.recved == 0
            &&& t.sended <= data.len()
            &&& t.sender matches SendAction::Put(sended) ==> sended < data.len()
        },
    }
}

/// A step of either end keeps the channel in order.
pub proof fn step_keeps_order(data: Seq<u8>, t: Transfer, elapsed: u128)
    requires
        0 < data.len() <= u32::MAX,
        in_order(data, t),
    ensures
        in_order(data, after_sender(data, t, elapsed)),
        in_order(data, after_receiver(data.len(), t, elapsed)),
{
    let sent = after_sender(data, t, elapsed);
    let received = after_receiver(data.len(), t, elapsed);
    if t.receiver is Does {
        assert(sent.buf.take(sent.sended - sent.recved) =~= data.subrange(
            sent.recved as int,
            sent.sended as int,
        ));
        if received.receiver is Does {
            assert(received.got =~= data.take(received.recved as int));
            assert(received.buf.take(received.sended - received.recved) =~= data.subrange(
                received.recved as int,
                received.sended as int,
            ));
        } else {
            assert(data.take(data.len() as int) =~= data);
        }
    }
}

/// What goes into a channel comes out of it, in whatever order the two ends take their steps,
/// however long they wait, and whatever was in the buffer before. A piece is put into the buffer
/// only inside the data, and taken out only inside the buffer. If the receiver returns without
/// having run out of time, it has the data that were sent, of whatever length that a word can
/// hold, and the sender has sent them all; and what the receiver has at any time is the start of
/// them.
pub proof fn data_arrive(data: Seq<u8>, buf: Seq<u8>, steps: Seq<Step>)
    requires
        0 < data.len() <= u32::MAX,
        buf.len() == shm::BUF_LEN,
    ensures
        ({
            let t = after_steps(data, at_first(buf), steps);
            &&& in_order(data, t)
            &&& t.sender matches SendAction::Put(sended) ==> sended < data.len()
            &&& t.receiver matches Receiver::Does(CollectAction::Take(sended, recved)) ==> recved
                < sended <= recved + shm::BUF_LEN
            &&& t.receiver == Receiver::Returned(false) ==> t.got == data && t.sender
                == SendAction::Done(true)
            &&& t.got.len() <= data.len()
            &&& t.got == data.take(t.got.len() as int)
        }),
    decreases steps.len(),
{
    let t = after_steps(data, at_first(buf), steps);
    if steps.len() == 0 {
        assert(t.got =~= data.take(0));
        assert(t.buf.take(0) =~= data.subrange(0, 0));
    } else {
        data_arrive(data, buf, steps.drop_last());
        let before = after_steps(data, at_first(buf), steps.drop_last());
        match steps.last() {
            Step::Sender(elapsed) => step_keeps_order(data, before, elapsed),
            Step::Receiver(elapsed) => step_keeps_order(data, before, elapsed),
        }
    }
    assert(data.take(data.len() as int) =~= data);
}

/// A sender that waits while the receiver runs out of time starts over: it finds the channel
/// empty, and puts the first piece into it again. Nobody takes that piece out, so the sender too
/// runs out of time in the end, and says that the data were not sent.
pub proof fn sender_starts_over(data: Seq<u8>, t: Transfer, elapsed: u128, late: u128)
    requires
        0 < data.len() <= u32::MAX,
        in_order(data, t),
        t.sender == SendAction::Wait,
        t.receiver == Receiver::Does(CollectAction::Finish(true)),
        late > shm::SYNC_TIME_OUT,
    ensures
        ({
            let returned = after_receiver(data.len(), t, elapsed);
            let again = after_sender(data, returned, elapsed);
            let put = after_sender(data, again, elapsed);
            &&& again.sender == SendAction::Put(0)
            &&& put.buf == data.take(shm::BUF_LEN as int)
            &&& after_receiver(data.len(), put, elapsed) == put
            &&& after_sender(data, put, late).sender == SendAction::Done(false)
        }),
{
    let returned = after_receiver(data.len(), t, elapsed);
    let again = after_sender(data, returned, elapsed);
    let put = after_sender(data, again, elapsed);
    assert(put.buf =~= data.take(shm::BUF_LEN as int));
}

/// How far a transfer is from the point where the receiver returns.
pub open spec fn steps_left(data: Seq<u8>, t: Transfer) -> nat {
    let sender: int = match t.sender {
        SendAction::Put(_) => 1,
        SendAction::Wait => 2,
        SendAction::Done(_) => 0,
    };
    match t.receiver {
        Receiver::Does(next) => {
            let receiver: int = match next {
                CollectAction::Wait => 3,
                CollectAction::Take(_, _) => 2,
                CollectAction::Finish(_) => 1,
            };
            (4 * (data.len() - t.sended) + 2 * (data.len() - t.recved) + sender + receiver) as nat
        },
        Receiver::Returned(_) => 0,
    }
}

/// A transfer goes on: until the receiver has returned, and unless the sender has run out of time,
/// no step takes the transfer further from its end, and one of the two ends can take a step that
/// brings it nearer.
pub proof fn transfer_goes_on(data: Seq<u8>, t: Transfer, elapsed: u128)
    requires
        0 < data.len() <= u32::MAX,
        in_order(data, t),
        t.sender != SendAction::Done(false),
        t.receiver is Does,
    ensures
        steps_left(data, after_sender(data, t, elapsed)) <= steps_left(data, t),
        steps_left(data, after_receiver(data.len(), t, elapsed)) <= steps_left(data, t),
        steps_left(data, after_sender(data, t, elapsed)) < steps_left(data, t) || steps_left(
            data,
            after_receiver(data.len(), t, elapsed),
        ) < steps_left(data, t),
{
}

/// From wherever a transfer is without an end having run out of time, it can be finished in time.
proof fn lemma_finishes(data: Seq<u8>, buf: Seq<u8>, steps: Seq<Step>)
    requires
        0 < data.len() <= u32::MAX,
        buf.len() == shm::BUF_LEN,
        after_steps(data, at_first(buf), steps).sender != SendAction::Done(false),
        after_steps(data, at_first(buf), steps).receiver != Receiver::Does(
            CollectAction::Finish(true),
        ),
        after_steps(data, at_first(buf), steps).receiver != Receiver::Returned(true),
    ensures
        exists|all: Seq<Step>| #[trigger]
            after_steps(data, at_first(buf), all).receiver == Receiver::Returned(false),
    decreases steps_left(data, after_steps(data, at_first(buf), steps)),
{
    let t = after_steps(data, at_first(buf), steps);
    data_arrive(data, buf, steps);
    if t.receiver is Does {
        transfer_goes_on(data, t, 0);
        let sender = steps.push(Step::Sender(0));
        let receiver = steps.push(Step::Receiver(0));
        assert(sender.drop_last() =~= steps);
        assert(receiver.drop_last() =~= steps);
        assert(after_steps(data, at_first(buf), sender) == after_sender(data, t, 0));
        assert(after_steps(data, at_first(buf), receiver) == after_receiver(data.len(), t, 0));
        if steps_left(data, after_sender(data, t, 0)) < steps_left(data, t) {
            lemma_finishes(data, buf, sender);
        } else {
            lemma_finishes(data, buf, receiver);
        }
    }
}

/// Data of any length that a word can hold can go through a channel: there are steps of the two
/// ends after which the receiver has returned in time.
pub proof fn transfer_finishes(data: Seq<u8>, buf: Seq<u8>)
    requires
        0 < data.len() <= u32::MAX,
        buf.len() == shm::BUF_LEN,
    ensures
        exists|steps: Seq<Step>| #[trigger]
            after_steps(data, at_first(buf), steps).receiver == Receiver::Returned(false),
{
    lemma_finishes(data, buf, Seq::empty());
}

/// An answer makes up for the time without a frame that led to the question.
pub proof fn answer_makes_up(time: nat)
    ensures
        shm::after_silence(time) matches Some(t) ==> shm::after_pong(t) == time,
{
}

/// The time without an answer after `n` times without a frame; nothing once the connection counts
/// as ended.
pub open spec fn after_silences(time: nat, n: nat) -> Option<nat>
    decreases n,
{
    if n == 0 {
        Some(time)
    } else {
        match shm::after_silence(time) {
            Some(t) => after_silences(t, (n - 1) as nat),
            None => None,
        }
    }
}

/// An end that hears nothing at all asks three times, and then counts the connection as ended.
pub proof fn gives_up(n: nat)
    ensures
        after_silences(0, n) is Some <==> n <= 3,
{
    reveal_with_fuel(after_silences, 5);
}

/// How long an end waits for a step, given as the time that its wait has taken.
pub open spec fn time_of(step: Step) -> u128 {
    match step {
        Step::Sender(elapsed) => elapsed,
        Step::Receiver(elapsed) => elapsed,
    }
}

/// Nobody is given up before one second has passed: as long as no wait takes longer, the sender
/// does not fail and the receiver does not run out of time, in whatever order the two ends take
/// their steps.
pub proof fn nobody_is_given_up_early(data: Seq<u8>, buf: Seq<u8>, steps: Seq<Step>)
    requires
        0 < data.len() <= u32::MAX,
        buf.len() == shm::BUF_LEN,
        forall|i: int| 0 <= i < steps.len() ==> time_of(#[trigger] steps[i]) <= 1_000_000_000,
    ensures
        ({
            let t = after_steps(data, at_first(buf), steps);
            &&& t.sender != SendAction::Done(false)
            &&& t.receiver != Receiver::Does(CollectAction::Finish(true))
            &&& t.receiver != Receiver::Returned(true)
        }),
    decreases steps.len(),
{
    if steps.len() > 0 {
        let before = steps.drop_last();
        assert forall|i: int| 0 <= i < before.len() implies time_of(#[trigger] before[i])
            <= 1_000_000_000 by {
            assert(before[i] == steps[i]);
        }
        nobody_is_given_up_early(data, buf, before);
        data_arrive(data, buf, before);
        assert(time_of(steps[steps.len() - 1]) <= 1_000_000_000);
    }
}

/// An end that waits waits on as long as there is nothing to go on with and one second has not
/// passed, gives up when it has, and goes on at once, with what the words say, when there is
/// something, however late it is.
pub proof fn waits_last_one_second(sended: u32, recved: u32, elapsed: u128)
    ensures
        shm::waited_send(sended, recved, elapsed) is Again <==> sended <= recved && elapsed
            <= 1_000_000_000,
        shm::waited_send(sended, recved, elapsed) is Expired <==> sended <= recved && elapsed
            > 1_000_000_000,
        sended > recved ==> shm::waited_send(sended, recved, elapsed) == Wait::Ready(
            sended,
            recved,
        ),
        shm::waited_recv(sended, recved, elapsed) is Again <==> sended != recved && elapsed
            <= 1_000_000_000,
        shm::waited_recv(sended, recved, elapsed) is Expired <==> sended != recved && elapsed
            > 1_000_000_000,
        sended == recved ==> shm::waited_recv(sended, recved, elapsed) == Wait::Ready(
            sended,
            recved,
        ),
{
}

/// A sender takes a free channel at once, however late it is, and waits for a taken one, whatever
/// it is taken by, until one second has passed.
pub proof fn taken_channel_is_waited_for(frame: Frame, data_ty: u32, elapsed: u128)
    ensures
        shm::type_action(frame, data_ty, elapsed) is Store <==> data_ty == 0,
        shm::type_action(frame, data_ty, elapsed) is Again <==> data_ty != 0 && elapsed
            <= 1_000_000_000,
        shm::type_action(frame, data_ty, elapsed) is Expired <==> data_ty != 0 && elapsed
            > 1_000_000_000,
        shm::type_action(frame, data_ty, elapsed) matches TypeAction::Store {
            data_ty: ty,
            data_len,
        } ==> ty == shm::type_word(frame) && data_len == shm::len_word(frame),
{
}

/// The two ends one after the other, each with the time that its wait has taken so far.
pub open spec fn after_rounds(data: Seq<u8>, t: Transfer, times: Seq<(u128, u128)>) -> Transfer
    decreases times.len(),
{
    if times.len() == 0 {
        t
    } else {
        after_rounds(
            data,
            after_receiver(data.len(), after_sender(data, t, times[0].0), times[0].1),
            times.skip(1),
        )
    }
}

/// In rounds in which both ends step in time, a transfer comes to its end.
proof fn lemma_rounds(data: Seq<u8>, t: Transfer, times: Seq<(u128, u128)>)
    requires
        0 < data.len() <= u32::MAX,
        in_order(data, t),
        t.sender != SendAction::Done(false),
        t.receiver != Receiver::Does(CollectAction::Finish(true)),
        t.receiver != Receiver::Returned(true),
        forall|i: int|
            0 <= i < times.len() ==> (#[trigger] times[i]).0 <= 1_000_000_000 && times[i].1
                <= 1_000_000_000,
        times.len() >= steps_left(data, t),
    ensures
        after_rounds(data, t, times).receiver == Receiver::Returned(false),
        after_rounds(data, t, times).got == data,
        after_rounds(data, t, times).sender == SendAction::Done(true),
    decreases times.len(),
{
    if times.len() > 0 {
        let sent = after_sender(data, t, times[0].0);
        let next = after_receiver(data.len(), sent, times[0].1);
        step_keeps_order(data, t, times[0].0);
        step_keeps_order(data, sent, times[0].1);
        if t.receiver is Does {
            transfer_goes_on(data, t, times[0].0);
            transfer_goes_on(data, sent, times[0].1);
            if steps_left(data, sent) == steps_left(data, t) {
                assert(sent == t);
                transfer_goes_on(data, t, times[0].1);
                assert(after_sender(data, t, times[0].1) == t);
            }
        }
        let rest = times.skip(1);
        assert forall|i: int| 0 <= i < rest.len() implies (#[trigger] rest[i]).0 <= 1_000_000_000
            && rest[i].1 <= 1_000_000_000 by {
            assert(rest[i] == times[i + 1]);
        }
        lemma_rounds(data, next, rest);
    }
}

/// Data get through: if both ends keep taking steps and no wait takes longer than one second, then
/// after rounds enough the receiver has returned with the data that were sent, and the sender has
/// returned that it sent them.
pub proof fn data_get_through(data: Seq<u8>, buf: Seq<u8>, times: Seq<(u128, u128)>)
    requires
        0 < data.len() <= u32::MAX,
        buf.len() == shm::BUF_LEN,
        forall|i: int|
            0 <= i < times.len() ==> (#[trigger] times[i]).0 <= 1_000_000_000 && times[i].1
                <= 1_000_000_000,
        times.len() >= 6 * data.len() + 4,
    ensures
        after_rounds(data, at_first(buf), times).receiver == Receiver::Returned(false),
        after_rounds(data, at_first(buf), times).got == data,
        after_rounds(data, at_first(buf), times).sender == SendAction::Done(true),
{
    data_arrive(data, buf, Seq::empty());
    lemma_rounds(data, at_first(buf), times);
}

/// Data go in pieces that fill the buffer of 2048 bytes, except for the last one, which has what
/// is left; a piece that does not fill the buffer leaves the rest of it as it was.
pub proof fn pieces_fill_the_buffer(data: Seq<u8>, sended: nat, buf: Seq<u8>)
    requires
        sended <= data.len(),
        buf.len() == shm::BUF_LEN,
    ensures
        shm::is_last(data.len(), sended) <==> data.len() - sended <= 2048,
        shm::is_last(data.len(), sended) ==> shm::piece(data, sended) == data.skip(sended as int),
        !shm::is_last(data.len(), sended) ==> shm::piece(data, sended) == data.skip(
            sended as int,
        ).take(2048),
        ({
            let after = shm::filled(buf, shm::piece(data, sended));
            let n = shm::piece(data, sended).len() as int;
            &&& after.len() == buf.len()
            &&& after.take(n) == shm::piece(data, sended)
            &&& after.skip(n) == buf.skip(n)
        }),
{
    let piece = shm::piece(data, sended);
    let n = piece.len() as int;
    let after = shm::filled(buf, piece);
    assert(after.take(n) =~= piece);
    assert(after.skip(n) =~= buf.skip(n));
    if shm::is_last(data.len(), sended) {
        assert(piece =~= data.skip(sended as int));
    } else {
        assert(piece =~= data.skip(sended as int).take(2048));
    }
}

/// A receiver adds to what it has the bytes that were sent and not yet received, and then has
/// received what was sent; it was the last piece if that is all that was announced, or more.
pub proof fn piece_is_added(
    got: Seq<u8>,
    buf: Seq<u8>,
    sended: u32,
    recved: u32,
    data_size: nat,
)
    requires
        buf.len() == shm::BUF_LEN,
        recved <= sended <= recved + shm::BUF_LEN,
    ensures
        shm::collected(got, buf, sended, recved).len() == got.len() + sended - recved,
        shm::collected(got, buf, sended, recved).take(got.len() as int) == got,
        forall|i: int|
            0 <= i < sended - recved ==> #[trigger] shm::collected(got, buf, sended, recved)[got.len()
                + i] == buf[i],
        shm::taken(sended, data_size).recved == sended,
        shm::taken(sended, data_size).last <==> data_size <= sended,
{
    assert(shm::collected(got, buf, sended, recved).take(got.len() as int) =~= got);
}

/// A sender goes on behind what was sent, and a receiver takes what lies between the two words.
pub proof fn ends_go_on_where_the_words_say(sended: u32, recved: u32)
    ensures
        shm::next_send(SendEvent::Waited(Wait::Ready(sended, recved))) == SendAction::Put(sended),
        shm::next_collect(CollectEvent::Waited(Wait::Ready(sended, recved)))
            == CollectAction::Take(sended, recved),
{
}

/// A word holds a length up to a multiple of 2^32.
pub proof fn words_hold_remainders(frame: Frame, len: nat, sended: nat, quotient: nat, word: u32)
    ensures
        frame matches Frame::Data(d) ==> d@.len() == quotient * 0x1_0000_0000 + word
            ==> shm::len_word(frame) == Some(word),
        !(frame is Data) ==> shm::len_word(frame) is None,
        sended <= len && sended + shm::piece_len(len, sended) == quotient * 0x1_0000_0000 + word
            ==> shm::sended_after(len, sended) == word,
{
}

/// Data that are announced with no length are left alone, and a channel in which nothing is
/// announced holds nothing.
pub proof fn nothing_is_made_up(data_len: u32, received: Received)
    ensures
        shm::is_found(3, 0, received) ==> received == Received::Unsized,
        shm::is_found(0, data_len, received) ==> received == Received::Frame(Frame::Empty),
{
}

/// The receiver leaves the words of a frame with data as they are, and of any other it clears the
/// type only.
pub proof fn receiver_clears_the_type(ch: Channel)
    ensures
        shm::after_found(ch).data_len == ch.data_len,
        shm::after_found(ch).sended == ch.sended,
        shm::after_found(ch).recved == ch.recved,
        shm::after_found(ch).data_ty == if ch.data_ty == 3 {
            3
        } else {
            0u32
        },
{
}

/// A frame whose type was written wakes the other end, whatever the frame and whichever end sends
/// it: the event that is signalled is the one that the other end waits for. The data, if there are
/// any, are sent after that, as they are, and whether the frame was sent is whether they were; a
/// frame without data was sent once it was signalled. A frame whose type could not be written
/// signals nothing, and was not sent.
pub proof fn frame_wakes_the_other_end(client: bool, frame: Frame, sent: bool)
    ensures
        ({
            let eid = shm::send_eid_of(client);
            let first = shm::next_frame(eid, FrameEvent::Typed(frame, true));
            &&& shm::next_frame(eid, FrameEvent::Typed(frame, false)) == FrameAction::Return(false)
            &&& match frame {
                Frame::Data(d) => first == (FrameAction::Signal {
                    eid: shm::recv_eid_of(!client),
                    data: Some(d),
                }) && shm::next_frame(eid, FrameEvent::Signaled(Some(d))) == FrameAction::Send(d)
                    && shm::next_frame(eid, FrameEvent::Sent(sent)) == FrameAction::Return(sent),
                _ => first == (FrameAction::Signal { eid: shm::recv_eid_of(!client), data: None })
                    && shm::next_frame(eid, FrameEvent::Signaled(None)) == FrameAction::Return(
                    true,
                ),
            }
        }),
{
}

/// Each time without a frame counts as much as the last one, and an answer that was not waited for
/// counts for nothing.
pub proof fn silences_add_up(n: nat)
    requires
        n <= 3,
    ensures
        after_silences(0, n) == Some(100 * n),
        shm::after_pong(0) == 0,
{
    reveal_with_fuel(after_silences, 5);
}

/// The numbers on which both ends have to agree, and how long they wait.
pub proof fn numbers_are_agreed_on()
    ensures
        shm::BUF_LEN == 2048,
        FRAME_NONE == 0,
        shm::FRAME_PING == 1,
        shm::FRAME_PONG == 2,
        shm::FRAME_DATA == 3,
        shm::EVT_MASTER == 0,
        shm::EVT_SLAVER == 1,
        shm::SYNC_TIME_OUT == 1_000_000_000,
        shm::CELL_TIMEOUT == 100,
        shm::send_channel_of(false) == ChannelId::Ch1,
        shm::send_channel_of(true) == ChannelId::Ch2,
        shm::recv_eid_of(false) == shm::EVT_MASTER,
        shm::recv_eid_of(true) == shm::EVT_SLAVER,
{
}

} // verus!
