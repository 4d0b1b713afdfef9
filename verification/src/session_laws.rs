//! What a session owes to those who use it: callers that wait, handlers, and the other end.

use crate::laws;
use crate::method::{HandleError, MethodView};
use crate::packet;
use crate::packet::{PacketError, PacketView};
use crate::reply;
use crate::reply::Arg;
use crate::result;
use crate::result::{RequestResult, RespData, ResultView, Summary};
use crate::service::RecvError;
use crate::session;
use crate::session::{CallView, Handled, SessionView, WaitAction, WaitEvent};
use vstd::prelude::*;

verus! {

/// The packets that were received, in order.
pub open spec fn packets_received(events: Seq<WaitEvent>) -> Seq<Vec<u8>>
    decreases events.len(),
{
    if events.len() == 0 {
        Seq::empty()
    } else {
        let before = packets_received(events.drop_last());
        match events.last() {
            WaitEvent::Received(Some(Ok(pack))) => before.push(pack),
            _ => before,
        }
    }
}

/// The packets that a caller handles because of `events`, in order.
pub open spec fn packets_handled(events: Seq<WaitEvent>) -> Seq<Vec<u8>>
    decreases events.len(),
{
    if events.len() == 0 {
        Seq::empty()
    } else {
        let before = packets_handled(events.drop_last());
        match session::next_action(events.last()) {
            WaitAction::Handle(pack) => before.push(pack),
            _ => before,
        }
    }
}

/// A caller that waits handles every packet that it receives, as it is, in the order in which they
/// came, and nothing else.
pub proof fn every_packet_is_handled(events: Seq<WaitEvent>)
    ensures
        packets_handled(events) == packets_received(events),
    decreases events.len(),
{
    if events.len() > 0 {
        every_packet_is_handled(events.drop_last());
    }
}

/// A caller looks for its response after each thing that can have brought it, which is sending the
/// request and handling a packet; it receives only when it has looked and found nothing; it blocks
/// only when another caller is receiving; and it sends nothing more than its request.
pub proof fn a_caller_waits_its_turn(event: WaitEvent)
    ensures
        session::next_action(event) is Poll <==> event is Sent || event is Handled,
        session::next_action(event) is Receive <==> event == WaitEvent::Polled(None),
        session::next_action(event) is Block <==> event == WaitEvent::Received(None),
        !(session::next_action(event) is Send),
{
}

/// A caller that is alone on its connection: what it does next, the packets that are still to
/// come, and those that it has handled.
pub struct Waiting {
    pub action: WaitAction,
    pub inbox: Seq<Vec<u8>>,
    pub handled: Seq<Vec<u8>>,
}

/// The caller after it did what it does next. `response` says which response was delivered to it
/// by the packets that were handled, if any; when no packets are left, the connection ends.
pub open spec fn after_action(
    w: Waiting,
    response: spec_fn(Seq<Vec<u8>>) -> Option<RequestResult>,
) -> Waiting {
    match w.action {
        WaitAction::Send(_) => Waiting { action: session::next_action(WaitEvent::Sent(true)), ..w },
        WaitAction::Poll => Waiting {
            action: session::next_action(WaitEvent::Polled(response(w.handled))),
            ..w
        },
        WaitAction::Receive => if w.inbox.len() == 0 {
            Waiting {
                action: session::next_action(
                    WaitEvent::Received(Some(Err(RecvError::Disconnect))),
                ),
                ..w
            }
        } else {
            Waiting {
                action: session::next_action(WaitEvent::Received(Some(Ok(w.inbox[0])))),
                inbox: w.inbox.skip(1),
                ..w
            }
        },
        WaitAction::Handle(pack) => Waiting {
            action: session::next_action(WaitEvent::Handled),
            handled: w.handled.push(pack),
            ..w
        },
        _ => w,
    }
}

/// The caller after `n` such actions.
pub open spec fn after_actions(
    w: Waiting,
    response: spec_fn(Seq<Vec<u8>>) -> Option<RequestResult>,
    n: nat,
) -> Waiting
    decreases n,
{
    if n == 0 {
        w
    } else {
        after_actions(after_action(w, response), response, (n - 1) as nat)
    }
}

/// A caller that looks for its response goes on to the first of the packets to come that brings
/// it, or to the end of the connection.
proof fn lemma_returns(
    inbox: Seq<Vec<u8>>,
    handled: Seq<Vec<u8>>,
    response: spec_fn(Seq<Vec<u8>>) -> Option<RequestResult>,
    k: nat,
)
    requires
        k <= inbox.len(),
        forall|j: nat| j < k ==> #[trigger] response(handled + inbox.take(j as int)) is None,
        k < inbox.len() ==> response(handled + inbox.take(k as int)) is Some,
    ensures
        ({
            let w = Waiting { action: WaitAction::Poll, inbox, handled };
            let end = after_actions(w, response, 3 * k + 2);
            &&& end.handled == handled + inbox.take(k as int)
            &&& end.action == WaitAction::Done(
                match response(handled + inbox.take(k as int)) {
                    Some(r) => r,
                    None => RequestResult::Disconnect,
                },
            )
        }),
    decreases k,
{
    reveal_with_fuel(after_actions, 4);
    let w = Waiting { action: WaitAction::Poll, inbox, handled };
    assert(handled + inbox.take(0) =~= handled);
    if k == 0 {
    } else {
        assert(response(handled + inbox.take(0)) is None);
        let next = handled.push(inbox[0]);
        let rest = inbox.skip(1);
        assert forall|j: nat| j < k - 1 implies #[trigger] response(
            next + rest.take(j as int),
        ) is None by {
            assert(next + rest.take(j as int) =~= handled + inbox.take((j + 1) as int));
            assert(response(handled + inbox.take((j + 1) as nat as int)) is None);
        }
        assert(next + rest.take((k - 1) as int) =~= handled + inbox.take(k as int));
        lemma_returns(rest, next, response, (k - 1) as nat);
        let one = after_action(w, response);
        let two = after_action(one, response);
        let three = after_action(two, response);
        assert(three.handled =~= next);
        assert(three == Waiting { action: WaitAction::Poll, inbox: rest, handled: next });
        assert(after_actions(w, response, 3 * k + 2) == after_actions(
            three,
            response,
            (3 * k + 2 - 3) as nat,
        ));
    }
}

/// A request returns. The caller sends it, handles the packets that come up to the one that brings
/// its response, those of others among them, and no further ones, and returns that response; and
/// if none of the packets brings it before the connection ends, it returns that.
pub proof fn request_returns(
    pack: Vec<u8>,
    inbox: Seq<Vec<u8>>,
    response: spec_fn(Seq<Vec<u8>>) -> Option<RequestResult>,
    k: nat,
)
    requires
        k <= inbox.len(),
        forall|j: nat| j < k ==> #[trigger] response(inbox.take(j as int)) is None,
        k < inbox.len() ==> response(inbox.take(k as int)) is Some,
    ensures
        exists|n: nat|
            ({
                let end = #[trigger] after_actions(
                    Waiting { action: WaitAction::Send(pack), inbox, handled: Seq::empty() },
                    response,
                    n,
                );
                &&& end.handled == inbox.take(k as int)
                &&& end.action == WaitAction::Done(
                    match response(inbox.take(k as int)) {
                        Some(r) => r,
                        None => RequestResult::Disconnect,
                    },
                )
            }),
{
    let none = Seq::<Vec<u8>>::empty();
    assert forall|j: nat| j < k implies #[trigger] response(none + inbox.take(j as int)) is None by {
        assert(none + inbox.take(j as int) =~= inbox.take(j as int));
    }
    assert(none + inbox.take(k as int) =~= inbox.take(k as int));
    lemma_returns(inbox, none, response, k);
    let w = Waiting { action: WaitAction::Send(pack), inbox, handled: none };
    assert(after_actions(w, response, 3 * k + 3) == after_actions(
        after_action(w, response),
        response,
        3 * k + 2,
    ));
}

/// Whether sending succeeded or not, the caller goes on alike: it waits for the response.
pub proof fn sending_is_not_the_end(sent: bool, other: bool)
    ensures
        session::next_action(WaitEvent::Sent(sent)) == session::next_action(WaitEvent::Sent(other)),
{
}

/// What was delivered has the contents that came in the packet, and what a result is does not
/// depend on anything else.
pub proof fn result_is_its_contents(data: RespData, text: String)
    ensures
        RequestResult::Data(data)@ == ResultView::Data(data@),
        RequestResult::Error(text)@ == ResultView::Error(text@),
        RequestResult::Disconnect@ == ResultView::Disconnect,
        RequestResult::Decode(data)@ == ResultView::Decode(data@),
{
}

/// A response is delivered through the sender under its id: its error if it has one, whatever
/// result stands beside it, and its result otherwise.
pub proof fn response_is_delivered<T>(
    id: u32,
    error: Option<Seq<char>>,
    bytes: Seq<u8>,
    pending: Map<u32, T>,
    handled: Handled<T>,
)
    requires
        session::leads_to(PacketView::Response { id, error, result: bytes }, pending, handled),
    ensures
        handled matches Handled::Deliver { sender, result } && sender == pending[id] && (
        error matches Some(e) ==> result@ == ResultView::Error(e)) && (error is None ==> result@
            == ResultView::Data(bytes)),
{
}

/// A request and a notification lead to a call, with the method and the arguments that the packet
/// holds. The call of a request can be answered under its id, that of a notification cannot be
/// answered.
pub proof fn call_is_what_the_packet_holds<T>(
    id: u32,
    method: MethodView,
    args: Seq<u8>,
    pending: Map<u32, T>,
    handled: Handled<T>,
)
    ensures
        session::leads_to(PacketView::Request { id, method, args }, pending, handled) ==> (
        handled matches Handled::Call(call) && call@.method == method && call@.args == args
            && call@.req_id == Some(id)),
        session::leads_to(PacketView::Notify { method, args }, pending, handled) ==> (
        handled matches Handled::Call(call) && call@.method == method && call@.args == args
            && call@.req_id is None),
{
}

/// A packet is handled exactly if it can be read and, where it is a response, somebody waits for
/// it; otherwise it is refused, for what is wrong with it or because nobody waits.
pub proof fn packet_is_handled_or_refused<T>(pack: Seq<u8>, pending: Map<u32, T>)
    ensures
        match packet::packet_at(pack) {
            Ok(PacketView::Response { id, .. }) => if pending.dom().contains(id) {
                session::refusal(pack, pending) is None
            } else {
                session::refusal(pack, pending) == Some(PacketError::SenderNotFound)
            },
            Ok(_) => session::refusal(pack, pending) is None,
            Err(e) => session::refusal(pack, pending) == Some(e),
        },
{
}

/// After a packet, those wait who waited before and were not answered by it, each as before.
pub proof fn who_waits_after_a_packet<T>(view: PacketView, pending: Map<u32, T>, id: u32)
    ensures
        session::pending_after(view, pending).dom().contains(id) <==> pending.dom().contains(id)
            && !(view matches PacketView::Response { id: i, .. } && i == id),
        session::pending_after(view, pending).dom().contains(id) ==> session::pending_after(
            view,
            pending,
        )[id] == pending[id],
{
}

/// A handler gets what the call holds: its method, its arguments, and its id, or 0 for a
/// notification. So all that a handler can be given for one call is alike.
pub proof fn handler_gets_the_call(arg: Arg, other: Arg, call: CallView)
    requires
        session::is_arg(arg, call),
    ensures
        arg.method@ == call.method,
        arg.bytes@ == call.args,
        call.req_id matches Some(id) ==> arg.id == id,
        call.req_id is None ==> arg.id == 0,
        session::is_arg(other, call) ==> other.method@ == arg.method@ && other.bytes@ == arg.bytes@
            && other.id == arg.id,
{
}

/// What goes back after a handler is read at the other end as a response to the request, with the
/// handler's error; nothing goes back if the handler succeeded or the call was a notification.
pub proof fn handler_error_is_read(call: CallView, outcome: Result<(), HandleError>)
    ensures
        call.req_id is None || outcome is Ok ==> session::reply_frame(call, outcome) is None,
        call.req_id matches Some(id) ==> outcome matches Err(e) ==> crate::wire::fits_header(e@)
            ==> (session::reply_frame(call, outcome) matches Some(frame) && packet::packet_at(frame)
            == Ok::<PacketView, PacketError>(
            PacketView::Response { id, error: Some(e@), result: crate::wire::nil_bytes() },
        )),
{
    if let (Some(id), Err(e)) = (call.req_id, outcome) {
        if crate::wire::fits_header(e@) {
            laws::error_round_trip(id, e@);
        }
    }
}

/// What a request is answered with is read at the other end as a response to that request, with
/// the result or the error; a lost connection and a result of another type are no answers.
pub proof fn answer_is_read(id: u32, bytes: Seq<u8>, err: Seq<char>)
    requires
        crate::wire::fits_header(err),
    ensures
        reply::answer_frame(id, ResultView::Data(bytes)) matches Some(frame) && packet::packet_at(
            frame,
        ) == Ok::<PacketView, PacketError>(PacketView::Response { id, error: None, result: bytes }),
        reply::answer_frame(id, ResultView::Error(err)) matches Some(frame) && packet::packet_at(
            frame,
        ) == Ok::<PacketView, PacketError>(
            PacketView::Response { id, error: Some(err), result: crate::wire::nil_bytes() },
        ),
        reply::answer_frame(id, ResultView::Disconnect) is None,
        reply::answer_frame(id, ResultView::Decode(bytes)) is None,
{
    laws::result_round_trip(id, bytes);
    laws::error_round_trip(id, err);
}

/// A frame that is given to be sent is the one that is meant, byte for byte, and there is one if
/// and only if one is meant.
pub proof fn frame_is_the_one_meant(given: Option<Vec<u8>>, meant: Option<Seq<u8>>)
    ensures
        reply::is_frame(given, meant) <==> (given is Some <==> meant is Some) && (given matches Some(
            pack,
        ) ==> meant matches Some(frame) ==> pack@ == frame),
{
}

/// The text of an error is shown whole behind `Error: `; what a success, a lost connection and a
/// result of another type are shown as does not depend on what came.
pub proof fn errors_are_shown_whole(err: Seq<char>, bytes: Seq<u8>, other: Seq<u8>)
    ensures
        result::shown(ResultView::Error(err)).len() == err.len() + 7,
        result::shown(ResultView::Error(err)).take(7) == "Error: "@,
        result::shown(ResultView::Error(err)).skip(7) == err,
        result::shown(ResultView::Data(bytes)) == "<Success>"@,
        result::shown(ResultView::Decode(other)) == "DecodeError"@,
        result::shown(ResultView::Disconnect) == "Disconnect"@,
{
    reveal_strlit("Error: ");
    assert(result::shown(ResultView::Error(err)).take(7) =~= "Error: "@);
    assert(result::shown(ResultView::Error(err)).skip(7) =~= err);
}

/// A summary tells the results apart, and keeps the text of an error.
pub proof fn summary_keeps_the_error(summary: Summary, view: ResultView)
    requires
        result::summarises(summary, view),
    ensures
        view is Data <==> summary is Success,
        view is Disconnect <==> summary is Disconnect,
        view is Decode <==> summary is Decode,
        view matches ResultView::Error(err) ==> (summary matches Summary::Error(text) && text@
            == err),
{
}

/// Two requests that are started one after the other get ids that differ, the second being the
/// first plus one unless that starts over, and both wait.
pub proof fn requests_get_their_own_ids<T>(s: SessionView<T>, first: T, second: T)
    ensures
        ({
            let one = laws::started(s, first);
            let two = laws::started(one, second);
            &&& one.next_id != s.next_id
            &&& s.next_id < u32::MAX ==> one.next_id == s.next_id + 1
            &&& s.next_id == u32::MAX ==> one.next_id == 0
            &&& two.pending.dom().contains(s.next_id)
            &&& two.pending[s.next_id] == first
            &&& two.pending.dom().contains(one.next_id)
            &&& two.pending[one.next_id] == second
        }),
{
}

} // verus!
