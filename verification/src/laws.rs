//! What holds of the protocol as a whole.

use crate::method;
use crate::method::{HandleError, MethodView};
use crate::packet;
use crate::packet::{PacketError, PacketView};
use crate::reply;
use crate::result::{RequestResult, ResultView};
use crate::service;
use crate::session;
use crate::session::{CallView, Handled, SessionView, WaitAction, WaitEvent};
use crate::wire;
use vstd::prelude::*;

verus! {

/// Whether a method can be written: a string has to fit its header.
pub open spec fn writable(method: MethodView) -> bool {
    match method {
        MethodView::Int(_) => true,
        MethodView::Str(s) => wire::fits_header(s),
    }
}

/// What is left of `head + rest` after `head` is `rest`.
proof fn lemma_skip_head(head: Seq<u8>, rest: Seq<u8>)
    ensures
        (head + rest).skip(head.len() as int) == rest,
{
    assert((head + rest).skip(head.len() as int) =~= rest);
}

/// A method is read back as it was written, whatever follows.
pub proof fn method_round_trip(method: MethodView, rest: Seq<u8>)
    requires
        writable(method),
    ensures
        packet::method_at(method::method_bytes(method) + rest) == Some(
            (method, method::method_bytes(method).len()),
        ),
{
    match method {
        MethodView::Int(i) => wire::u32_round_trip(i, rest),
        MethodView::Str(s) => wire::str_round_trip(s, rest),
    }
}

/// A packet that starts with the header for `len` and the type `pack_type` is read as its body.
proof fn lemma_envelope(len: u32, pack_type: u32, body: Seq<u8>)
    ensures
        packet::packet_at(wire::array_len_bytes(len) + wire::u32_bytes(pack_type) + body) == (
        if pack_type == packet::REQUEST {
            packet::request_at(len, body)
        } else if pack_type == packet::NOTIFY {
            packet::notify_at(len, body)
        } else if pack_type == packet::RESPONSE {
            packet::response_at(len, body)
        } else {
            Err(PacketError::InvalidPackType)
        }),
{
    let head = wire::array_len_bytes(len);
    let ty = wire::u32_bytes(pack_type);
    assert(head + ty + body =~= head + (ty + body));
    wire::array_len_round_trip(len, ty + body);
    lemma_skip_head(head, ty + body);
    wire::u32_round_trip(pack_type, body);
    lemma_skip_head(ty, body);
}

/// A request arrives as it was sent: with the same id, method and arguments.
pub proof fn request_round_trip(id: u32, method: MethodView, args: Seq<u8>)
    requires
        writable(method),
    ensures
        packet::packet_at(packet::request_head(id, method) + args) == Ok::<PacketView, PacketError>(
            PacketView::Request { id, method, args },
        ),
{
    let id_bytes = wire::u32_bytes(id);
    let method_bytes = method::method_bytes(method);
    let body = id_bytes + (method_bytes + args);
    assert(packet::request_head(id, method) + args =~= wire::array_len_bytes(4) + wire::u32_bytes(
        packet::REQUEST,
    ) + body);
    lemma_envelope(4, packet::REQUEST, body);
    wire::u32_round_trip(id, method_bytes + args);
    lemma_skip_head(id_bytes, method_bytes + args);
    method_round_trip(method, args);
    lemma_skip_head(method_bytes, args);
}

/// A notification arrives as it was sent: with the same method and arguments.
pub proof fn notify_round_trip(method: MethodView, args: Seq<u8>)
    requires
        writable(method),
    ensures
        packet::packet_at(packet::notify_head(method) + args) == Ok::<PacketView, PacketError>(
            PacketView::Notify { method, args },
        ),
{
    let method_bytes = method::method_bytes(method);
    let body = method_bytes + args;
    assert(packet::notify_head(method) + args =~= wire::array_len_bytes(3) + wire::u32_bytes(
        packet::NOTIFY,
    ) + body);
    lemma_envelope(3, packet::NOTIFY, body);
    method_round_trip(method, args);
    lemma_skip_head(method_bytes, args);
}

/// A response whose error and result are already MessagePack arrives with whatever error and
/// result these bytes hold.
pub proof fn raw_response_round_trip(id: u32, msgpack: Seq<u8>)
    ensures
        packet::packet_at(packet::response_head(id) + msgpack) == match packet::error_at(msgpack) {
            Some((error, n)) => Ok(
                PacketView::Response { id, error, result: msgpack.skip(n as int) },
            ),
            None => Err(PacketError::Error),
        },
{
    let id_bytes = wire::u32_bytes(id);
    let body = id_bytes + msgpack;
    assert(packet::response_head(id) + msgpack =~= wire::array_len_bytes(4) + wire::u32_bytes(
        packet::RESPONSE,
    ) + body);
    lemma_envelope(4, packet::RESPONSE, body);
    wire::u32_round_trip(id, msgpack);
    lemma_skip_head(id_bytes, msgpack);
}

/// A result arrives as it was sent, without an error.
pub proof fn result_round_trip(id: u32, msgpack: Seq<u8>)
    ensures
        packet::packet_at(packet::result_frame(id, msgpack)) == Ok::<PacketView, PacketError>(
            PacketView::Response { id, error: None, result: msgpack },
        ),
{
    let tail = wire::nil_bytes() + msgpack;
    assert(packet::result_frame(id, msgpack) =~= packet::response_head(id) + tail);
    raw_response_round_trip(id, tail);
    wire::nil_round_trip(msgpack);
    lemma_skip_head(wire::nil_bytes(), msgpack);
}

/// An error arrives as it was sent.
pub proof fn error_round_trip(id: u32, err: Seq<char>)
    requires
        wire::fits_header(err),
    ensures
        packet::packet_at(packet::error_frame(id, err)) == Ok::<PacketView, PacketError>(
            PacketView::Response { id, error: Some(err), result: wire::nil_bytes() },
        ),
{
    let tail = wire::str_bytes(err) + wire::nil_bytes();
    assert(packet::error_frame(id, err) =~= packet::response_head(id) + tail);
    raw_response_round_trip(id, tail);
    wire::str_round_trip(err, wire::nil_bytes());
    lemma_skip_head(wire::str_bytes(err), wire::nil_bytes());
}

/// The state of a session after it started a request for the caller behind `sender`.
pub open spec fn started<T>(s: SessionView<T>, sender: T) -> SessionView<T> {
    SessionView {
        pending: s.pending.insert(s.next_id, sender),
        next_id: session::id_after(s.next_id),
    }
}

/// What a callee answers reaches the caller that made the request, and it alone: the response to
/// a request that was started for the caller behind `sender` is handled, it is delivered through
/// `sender`, what is delivered is the answer, and the callers that wait afterwards are those that
/// waited before the request.
pub proof fn answer_reaches_caller<T>(
    s: SessionView<T>,
    sender: T,
    answer: ResultView,
    handled: Handled<T>,
)
    requires
        !s.pending.dom().contains(s.next_id),
        answer is Data || answer is Error,
        answer matches ResultView::Error(err) ==> wire::fits_header(err),
    ensures
        reply::answer_frame(s.next_id, answer) matches Some(frame) && session::refusal(
            frame,
            started(s, sender).pending,
        ) is None && (packet::packet_at(frame) matches Ok(view) && session::pending_after(
            view,
            started(s, sender).pending,
        ) == s.pending && (session::leads_to(view, started(s, sender).pending, handled) ==> (
        handled matches Handled::Deliver { sender: to, result } && to == sender && result@
            == answer))),
{
    match answer {
        ResultView::Data(msgpack) => result_round_trip(s.next_id, msgpack),
        ResultView::Error(err) => error_round_trip(s.next_id, err),
        _ => {},
    }
    assert(started(s, sender).pending.remove(s.next_id) =~= s.pending);
}

/// A request that is handled at the other end leads to a call of the same method with the same
/// arguments, which can be answered under the id of the request; no caller's wait is touched.
pub proof fn request_leads_to_call<T>(
    id: u32,
    method: MethodView,
    args: Seq<u8>,
    pending: Map<u32, T>,
    handled: Handled<T>,
)
    requires
        writable(method),
    ensures
        session::refusal(packet::request_head(id, method) + args, pending) is None,
        packet::packet_at(packet::request_head(id, method) + args) matches Ok(view)
            && session::pending_after(view, pending) == pending && (session::leads_to(
            view,
            pending,
            handled,
        ) ==> (handled matches Handled::Call(call) && call@ == (CallView {
            method,
            req_id: Some(id),
            args,
        }))),
{
    request_round_trip(id, method, args);
}

/// A notification that is handled at the other end leads to a call of the same method with the
/// same arguments, which cannot be answered; no caller's wait is touched.
pub proof fn notification_leads_to_call<T>(
    method: MethodView,
    args: Seq<u8>,
    pending: Map<u32, T>,
    handled: Handled<T>,
)
    requires
        writable(method),
    ensures
        session::refusal(packet::notify_head(method) + args, pending) is None,
        packet::packet_at(packet::notify_head(method) + args) matches Ok(view)
            && session::pending_after(view, pending) == pending && (session::leads_to(
            view,
            pending,
            handled,
        ) ==> (handled matches Handled::Call(call) && call@ == (CallView {
            method,
            req_id: None,
            args,
        }))),
{
    notify_round_trip(method, args);
}

/// A request is a remote call. The other end calls the method that was asked for with the
/// arguments that were given, and what it answers under the id that came with the call is
/// delivered to the caller that asked.
pub proof fn remote_call<T, U>(
    caller: SessionView<T>,
    sender: T,
    method: MethodView,
    args: Seq<u8>,
    callee: Map<u32, U>,
    called: Handled<U>,
    answer: ResultView,
    handled: Handled<T>,
)
    requires
        !caller.pending.dom().contains(caller.next_id),
        writable(method),
        answer is Data || answer is Error,
        answer matches ResultView::Error(err) ==> wire::fits_header(err),
        packet::packet_at(packet::request_head(caller.next_id, method) + args) matches Ok(view)
            && session::leads_to(view, callee, called),
    ensures
        called matches Handled::Call(call) && call@.method == method && call@.args == args && (
        call@.req_id matches Some(id) && reply::answer_frame(id, answer) matches Some(frame)
            && session::refusal(frame, started(caller, sender).pending) is None && (
        packet::packet_at(frame) matches Ok(view) && (session::leads_to(
            view,
            started(caller, sender).pending,
            handled,
        ) ==> (handled matches Handled::Deliver { sender: to, result } && to == sender && result@
            == answer)))),
{
    request_leads_to_call(caller.next_id, method, args, callee, called);
    answer_reaches_caller(caller, sender, answer, handled);
}

/// The error that a handler returns on a request goes back as the answer to that request. What
/// it returns on a notification goes nowhere, and so does success.
pub proof fn handler_error_is_answer(call: CallView, outcome: Result<(), HandleError>)
    ensures
        session::reply_frame(call, outcome) == match (call.req_id, outcome) {
            (Some(id), Err(e)) => reply::answer_frame(id, ResultView::Error(e@)),
            _ => None,
        },
{
}

/// A service without methods answers every request with the error `No this method`, and the
/// caller sees that error.
pub proof fn empty_service_answers(call: CallView, id: u32, outcome: Result<(), HandleError>)
    requires
        call.req_id == Some(id),
        outcome matches Err(e) && e@ == service::no_this_method(),
    ensures
        session::reply_frame(call, outcome) matches Some(frame) && packet::packet_at(frame) == Ok::<
            PacketView,
            PacketError,
        >(
            PacketView::Response {
                id,
                error: Some(service::no_this_method()),
                result: wire::nil_bytes(),
            },
        ),
{
    let text = service::no_this_method();
    reveal_strlit("No this method");
    vstd::utf8::is_ascii_chars_encode_utf8(text);
    error_round_trip(id, text);
}

/// A request is answered once: after its response was handled, the same packet, and any other
/// response to the same request, is refused.
pub proof fn answered_once<T>(first: Seq<u8>, second: Seq<u8>, pending: Map<u32, T>, id: u32)
    requires
        packet::packet_at(first) matches Ok(PacketView::Response { id: i, .. }) && i == id,
        packet::packet_at(second) matches Ok(PacketView::Response { id: i, .. }) && i == id,
        pending.dom().contains(id),
    ensures
        session::refusal(first, pending) is None,
        session::refusal(second, session::pending_after(packet::packet_at(first)->Ok_0, pending))
            == Some(PacketError::SenderNotFound),
{
}

/// Requests can be nested: a packet leaves every caller waiting but the one it answers, so that
/// responses may come in any order.
pub proof fn others_keep_waiting<T>(view: PacketView, pending: Map<u32, T>, id: u32)
    requires
        pending.dom().contains(id),
        !(view matches PacketView::Response { id: i, .. } && i == id),
    ensures
        session::pending_after(view, pending).dom().contains(id),
        session::pending_after(view, pending)[id] == pending[id],
{
}

/// In whichever order two packets are handled, the same callers wait afterwards.
pub proof fn packets_commute<T>(a: PacketView, b: PacketView, pending: Map<u32, T>)
    ensures
        session::pending_after(a, session::pending_after(b, pending)) == session::pending_after(
            b,
            session::pending_after(a, pending),
        ),
{
    assert(session::pending_after(a, session::pending_after(b, pending))
        =~= session::pending_after(b, session::pending_after(a, pending)));
}

/// The id `n` requests after `id`.
pub open spec fn ids_later(id: u32, n: nat) -> u32
    decreases n,
{
    if n == 0 {
        id
    } else {
        session::id_after(ids_later(id, (n - 1) as nat))
    }
}

/// Ids count up, and start over after the last one.
pub proof fn ids_count_up(id: u32, n: nat)
    ensures
        ids_later(id, n) == (id + n) % 0x1_0000_0000,
    decreases n,
{
    if n > 0 {
        ids_count_up(id, (n - 1) as nat);
    }
}

/// Of any 2^32 requests in a row, no two have the same id.
pub proof fn ids_distinct(id: u32, m: nat, n: nat)
    requires
        m < n < m + 0x1_0000_0000,
    ensures
        ids_later(id, m) != ids_later(id, n),
{
    ids_count_up(id, m);
    ids_count_up(id, n);
}

/// Whether every caller that waits started its request among the last `k` ones.
pub open spec fn recent<T>(s: SessionView<T>, k: nat) -> bool {
    forall|id: u32| #[trigger]
        s.pending.dom().contains(id) ==> exists|j: nat|
            1 <= j <= k && #[trigger] ids_later(id, j) == s.next_id
}

/// In a new session nobody waits.
pub proof fn recent_at_first<T>()
    ensures
        recent(SessionView::<T> { pending: Map::empty(), next_id: 1 }, 0),
{
}

/// Whoever waits after a request was started did so before, or started that request.
pub proof fn recent_after_request<T>(s: SessionView<T>, sender: T, k: nat)
    requires
        recent(s, k),
    ensures
        recent(started(s, sender), k + 1),
{
    let t = started(s, sender);
    assert forall|id: u32| #[trigger] t.pending.dom().contains(id) implies exists|j: nat|
        1 <= j <= k + 1 && #[trigger] ids_later(id, j) == t.next_id by {
        if id == s.next_id {
            assert(ids_later(id, 0) == id);
            assert(ids_later(id, 1) == t.next_id);
        } else {
            let j = choose|j: nat| 1 <= j <= k && #[trigger] ids_later(id, j) == s.next_id;
            assert(ids_later(id, j + 1) == t.next_id);
        }
    }
}

/// Handling a packet lets nobody wait who did not wait before.
pub proof fn recent_after_packet<T>(s: SessionView<T>, view: PacketView, k: nat)
    requires
        recent(s, k),
    ensures
        recent(
            SessionView {
                pending: session::pending_after(view, s.pending),
                next_id: s.next_id,
            },
            k,
        ),
{
    let t = SessionView {
        pending: session::pending_after(view, s.pending),
        next_id: s.next_id,
    };
    assert forall|id: u32| #[trigger] t.pending.dom().contains(id) implies exists|j: nat|
        1 <= j <= k && #[trigger] ids_later(id, j) == t.next_id by {
        assert(s.pending.dom().contains(id));
    }
}

/// As long as no caller waits through 2^32 requests, a new request does not take the id of one
/// that is waited for.
pub proof fn new_id_is_free<T>(s: SessionView<T>, k: nat)
    requires
        recent(s, k),
        k < 0x1_0000_0000,
    ensures
        !s.pending.dom().contains(s.next_id),
{
    if s.pending.dom().contains(s.next_id) {
        let j = choose|j: nat| 1 <= j <= k && #[trigger] ids_later(s.next_id, j) == s.next_id;
        ids_distinct(s.next_id, 0, j);
        assert(ids_later(s.next_id, 0) == s.next_id);
    }
}

/// The state of a session after it started requests for the callers behind `senders`, each one
/// while the ones before it still waited.
pub open spec fn nested<T>(s: SessionView<T>, senders: Seq<T>) -> SessionView<T>
    decreases senders.len(),
{
    if senders.len() == 0 {
        s
    } else {
        started(nested(s, senders.drop_last()), senders.last())
    }
}

/// Whoever waits inside nested requests did so before, or started one of them.
proof fn lemma_recent_nested<T>(s: SessionView<T>, senders: Seq<T>, k: nat)
    requires
        recent(s, k),
    ensures
        recent(nested(s, senders), k + senders.len()),
    decreases senders.len(),
{
    if senders.len() > 0 {
        let outer = senders.drop_last();
        lemma_recent_nested(s, outer, k);
        recent_after_request(nested(s, outer), senders.last(), k + outer.len());
    }
}

/// Both ends can make requests while requests are handled, as functions call each other: a
/// response to the innermost request is for the caller that made it, and once it was handled the
/// requests around it stand as they did before.
pub proof fn nested_request_returns<T>(
    s: SessionView<T>,
    senders: Seq<T>,
    k: nat,
    view: PacketView,
)
    requires
        recent(s, k),
        0 < senders.len(),
        k + senders.len() <= 0x1_0000_0000,
        view matches PacketView::Response { id, .. } && id == nested(
            s,
            senders.drop_last(),
        ).next_id,
    ensures
        ({
            let outer = nested(s, senders.drop_last());
            let inner = nested(s, senders);
            &&& inner.pending.dom().contains(outer.next_id)
            &&& inner.pending[outer.next_id] == senders.last()
            &&& session::pending_after(view, inner.pending) == outer.pending
        }),
{
    let outer = nested(s, senders.drop_last());
    lemma_recent_nested(s, senders.drop_last(), k);
    new_id_is_free(outer, k + senders.drop_last().len());
    assert(session::pending_after(view, nested(s, senders).pending) =~= outer.pending);
}

/// What a caller returns after the first of `events` that ends its wait.
pub open spec fn returned(events: Seq<WaitEvent>) -> Option<RequestResult>
    decreases events.len(),
{
    if events.len() == 0 {
        None
    } else {
        match session::next_action(events[0]) {
            WaitAction::Done(r) => Some(r),
            _ => returned(events.skip(1)),
        }
    }
}

/// A caller returns with the first event that ends its wait: the delivery of its response, or
/// that the connection ended.
pub proof fn wait_ends(events: Seq<WaitEvent>, event: WaitEvent)
    ensures
        returned(events.push(event)) == match returned(events) {
            Some(r) => Some(r),
            None => match event {
                WaitEvent::Polled(Some(r)) => Some(r),
                WaitEvent::Woken(Some(r)) => Some(r),
                WaitEvent::Woken(None) => Some(RequestResult::Disconnect),
                WaitEvent::Received(Some(Err(_))) => Some(RequestResult::Disconnect),
                _ => None,
            },
        },
    decreases events.len(),
{
    reveal_with_fuel(returned, 2);
    if events.len() > 0 {
        wait_ends(events.skip(1), event);
        assert(events.push(event).skip(1) =~= events.skip(1).push(event));
    } else {
        assert(events.push(event).skip(1) =~= Seq::<WaitEvent>::empty());
    }
}

/// A caller returns nothing but what was delivered to it, or that the connection ended.
pub proof fn returns_what_was_delivered(events: Seq<WaitEvent>)
    ensures
        returned(events) matches Some(r) ==> r == RequestResult::Disconnect || events.contains(
            WaitEvent::Polled(Some(r)),
        ) || events.contains(WaitEvent::Woken(Some(r))),
    decreases events.len(),
{
    if events.len() > 0 {
        let rest = events.skip(1);
        returns_what_was_delivered(rest);
        assert(forall|e: WaitEvent| #[trigger] rest.contains(e) ==> events.contains(e)) by {
            assert forall|e: WaitEvent| #[trigger] rest.contains(e) implies events.contains(e) by {
                let i = choose|i: int| 0 <= i < rest.len() && rest[i] == e;
                assert(events[i + 1] == e);
            }
        }
        assert(events.contains(events[0]));
    }
}

} // verus!
