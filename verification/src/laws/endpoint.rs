//! The host's endpoint: what each event makes it do, and that what has arrived is passed on.

use vstd::prelude::*;

use crate::fault::{IoErrorKind, IoFailure};
use crate::network::host::{
    endpoint_parent, replaces_endpoint, ExistingEndpoint, HostAction, HostEndpoint, HostEvent,
    HostPhase, HostView,
};

verus! {

/// Whether an endpoint holds nothing of any connection.
pub open spec fn holds_nothing(endpoint: HostEndpoint) -> bool {
    endpoint@.held.len() == 0 && endpoint@.ready.len() == 0
}

/// Whether a runtime is connected to an endpoint.
pub open spec fn is_connected(endpoint: HostEndpoint) -> bool {
    ||| endpoint@.phase == HostPhase::Serving
    ||| endpoint@.phase == HostPhase::Forwarding
    ||| endpoint@.phase == HostPhase::Writing
}

/// Whether an endpoint is in order: no whole message is held back, none waits but while one is
/// being passed on, and nothing is held without a connection.
pub open spec fn in_order(endpoint: HostEndpoint) -> bool {
    &&& !crate::laws::framing::begins_with_frame(endpoint@.held)
    &&& endpoint@.phase != HostPhase::Forwarding ==> endpoint@.ready.len() == 0
        && !crate::laws::framing::announces_too_much(endpoint@.held)
    &&& !is_connected(endpoint) ==> holds_nothing(endpoint)
}

/// Whether an event can happen to an endpoint: what its phase waits for may come, and its owner
/// may drop it at any time.
pub open spec fn may_happen(endpoint: HostEndpoint, event: HostEvent) -> bool {
    match event {
        HostEvent::ShutdownRequested => endpoint@.phase != HostPhase::Stopped,
        HostEvent::Accepted | HostEvent::AcceptFailed => endpoint@.phase == HostPhase::Accepting,
        HostEvent::BytesRead(_)
        | HostEvent::StreamEnded
        | HostEvent::ReadFailed(_)
        | HostEvent::Outgoing(_) => endpoint@.phase == HostPhase::Serving,
        HostEvent::Forwarded | HostEvent::ForwardFailed => endpoint@.phase
            == HostPhase::Forwarding,
        HostEvent::Written | HostEvent::WriteFailed(_) => endpoint@.phase == HostPhase::Writing,
    }
}

/// Whether a connection was ended for a reason: the endpoint asks for that alone, holds nothing
/// and waits for the next connection.
pub open spec fn connection_ended(
    next: HostEndpoint,
    actions: Vec<HostAction>,
    kind: IoErrorKind,
    message: Seq<char>,
) -> bool {
    &&& actions@.len() == 1
    &&& actions@[0] matches HostAction::EndConnection(Some(reason)) && reason.kind == kind
        && reason.message@ == message
    &&& next@.phase == HostPhase::Accepting
    &&& holds_nothing(next)
}

/// Whether a connection was ended for no reason.
pub open spec fn connection_closed(next: HostEndpoint, actions: Vec<HostAction>) -> bool {
    &&& actions@.len() == 1
    &&& actions@[0] matches HostAction::EndConnection(None)
    &&& next@.phase == HostPhase::Accepting
    &&& holds_nothing(next)
}

/// Whether a message is being passed on: that is all that is asked for.
pub open spec fn is_forwarding(
    next: HostEndpoint,
    actions: Vec<HostAction>,
    message: Seq<u8>,
) -> bool {
    &&& actions@.len() == 1
    &&& actions@[0] matches HostAction::Forward(passed_on) && passed_on@ == message
    &&& next@.phase == HostPhase::Forwarding
}

/// A fresh endpoint waits for a connection, holds nothing and is in order.
pub proof fn endpoints_start_without_a_connection(endpoint: HostEndpoint, phase: HostPhase)
    requires
        call_ensures(HostEndpoint::new, (), endpoint),
        call_ensures(HostEndpoint::phase, (&endpoint,), phase),
    ensures
        phase == HostPhase::Accepting,
        phase == endpoint@.phase,
        holds_nothing(endpoint),
        in_order(endpoint),
{
}

proof fn order_is_soundness(endpoint: HostEndpoint)
    ensures
        in_order(endpoint) <==> endpoint@.wf(),
{
    let held = endpoint@.held;
    assert(crate::network::frame::length_value(held) == crate::laws::framing::announced(held));
    assert(endpoint@.ready.len() == 0 ==> endpoint@.ready =~= Seq::empty());
    assert(held.len() == 0 ==> held =~= Seq::empty());
    if crate::laws::framing::begins_with_frame(held) {
        assert(crate::network::reader::whole_frames(held).len() > 0);
    }
}

/// Whatever a phase waits for is taken in, and leaves the endpoint in order.
pub proof fn expected_events_are_taken_in(endpoint: HostEndpoint, event: HostEvent)
    requires
        in_order(endpoint),
        may_happen(endpoint, event),
    ensures
        call_requires(HostEndpoint::step, (endpoint, event)),
        forall|next: HostEndpoint, actions: Vec<HostAction>|
            #[trigger] call_ensures(HostEndpoint::step, (endpoint, event), (next, actions))
                ==> in_order(next),
{
    order_is_soundness(endpoint);
    assert forall|next: HostEndpoint, actions: Vec<HostAction>|
        #[trigger] call_ensures(
            HostEndpoint::step,
            (endpoint, event),
            (next, actions),
        ) implies in_order(next) by {
        order_is_soundness(next);
    }
}

/// What some actions ask for, taken one by one.
proof fn actions_are_seen(actions: Vec<HostAction>)
    ensures
        crate::network::host::action_views(actions@).len() == actions@.len(),
        forall|i: int|
            0 <= i < actions@.len() ==> crate::network::host::action_views(actions@)[i]
                == #[trigger] actions@[i]@,
{
}

/// A runtime that connects is served from the start of its stream.
pub proof fn connections_start_afresh(
    endpoint: HostEndpoint,
    next: HostEndpoint,
    actions: Vec<HostAction>,
)
    requires
        call_ensures(HostEndpoint::step, (endpoint, HostEvent::Accepted), (next, actions)),
    ensures
        actions@.len() == 0,
        next@.phase == HostPhase::Serving,
        holds_nothing(next),
{
    actions_are_seen(actions);
}

/// A listener that fails takes the endpoint with it.
pub proof fn failed_listeners_end_the_endpoint(
    endpoint: HostEndpoint,
    next: HostEndpoint,
    actions: Vec<HostAction>,
)
    requires
        call_ensures(HostEndpoint::step, (endpoint, HostEvent::AcceptFailed), (next, actions)),
    ensures
        actions@.len() == 1,
        actions@[0] is Remove,
        next@.phase == HostPhase::Stopped,
        holds_nothing(next),
{
    actions_are_seen(actions);
    assert(actions@[0]@ is Remove);
}

/// A dropped receiver takes the endpoint with it, whatever it is doing, and the connection
/// first if there is one.
pub proof fn dropped_receivers_end_the_endpoint(
    endpoint: HostEndpoint,
    next: HostEndpoint,
    actions: Vec<HostAction>,
)
    requires
        call_ensures(HostEndpoint::step, (endpoint, HostEvent::ShutdownRequested), (next, actions)),
    ensures
        is_connected(endpoint) ==> actions@.len() == 2 && actions@[0] matches HostAction::EndConnection(
            None,
        ),
        !is_connected(endpoint) ==> actions@.len() == 1,
        actions@.last() is Remove,
        next@.phase == HostPhase::Stopped,
        holds_nothing(next),
{
    actions_are_seen(actions);
    assert(actions@.last()@ is Remove);
    assert(actions@[0]@ == crate::network::host::action_views(actions@)[0]);
}

/// Progress: as soon as a whole message of the runtime is there, the first one is passed on,
/// however the bytes came. What follows it is kept, every byte, for later. Bytes that make up no
/// whole message are kept and change nothing else, and a length over 64 KiB that stands first
/// ends the connection.
pub proof fn arrived_messages_are_passed_on(
    endpoint: HostEndpoint,
    bytes: Vec<u8>,
    next: HostEndpoint,
    actions: Vec<HostAction>,
)
    requires
        call_ensures(HostEndpoint::step, (endpoint, HostEvent::BytesRead(bytes)), (next, actions)),
    ensures
        ({
            let stream = endpoint@.held + bytes@;
            let end = 4 + crate::laws::framing::announced(stream);
            &&& crate::laws::framing::begins_with_frame(stream) ==> {
                &&& is_forwarding(next, actions, stream.subrange(4, end))
                &&& crate::laws::framing::are_frames_of(
                    stream.skip(end),
                    next@.ready,
                    next@.held,
                )
                &&& !crate::laws::framing::begins_with_frame(next@.held)
            }
            &&& crate::laws::framing::announces_too_much(stream) ==> connection_ended(
                next,
                actions,
                IoErrorKind::InvalidData,
                "Network control message is too large"@,
            )
            &&& !crate::laws::framing::begins_with_frame(stream)
                && !crate::laws::framing::announces_too_much(stream) ==> {
                &&& actions@.len() == 0
                &&& next@.phase == HostPhase::Serving
                &&& next@.held == stream
                &&& next@.ready.len() == 0
            }
        }),
{
    let stream = endpoint@.held + bytes@;
    let n = crate::laws::framing::announced(stream);
    actions_are_seen(actions);
    assert(crate::network::frame::length_value(stream) == n);
    if crate::laws::framing::begins_with_frame(stream) {
        let rest = stream.skip(4 + n);
        crate::laws::framing::frames_of_whole_streams(rest);
        let payloads = crate::network::reader::whole_frames(stream);
        assert(payloads.skip(1) =~= crate::network::reader::whole_frames(rest));
        assert(payloads[0] =~= stream.subrange(4, 4 + n));
    }
    assert(actions@.len() > 0 ==> actions@[0]@ == crate::network::host::action_views(actions@)[0]);
}

/// Progress: whenever a message has been passed on and another one is complete, that one is
/// passed on next, and those after it stay in order. Where none is left, the endpoint goes back
/// to its connection, or ends it if a length over 64 KiB follows.
pub proof fn complete_messages_follow_one_another(
    endpoint: HostEndpoint,
    next: HostEndpoint,
    actions: Vec<HostAction>,
)
    requires
        call_ensures(HostEndpoint::step, (endpoint, HostEvent::Forwarded), (next, actions)),
    ensures
        endpoint@.ready.len() > 0 ==> {
            &&& is_forwarding(next, actions, endpoint@.ready[0])
            &&& next@.ready == endpoint@.ready.skip(1)
            &&& next@.held == endpoint@.held
        },
        endpoint@.ready.len() == 0 && crate::laws::framing::announces_too_much(endpoint@.held)
            ==> connection_ended(
            next,
            actions,
            IoErrorKind::InvalidData,
            "Network control message is too large"@,
        ),
        endpoint@.ready.len() == 0 && !crate::laws::framing::announces_too_much(endpoint@.held)
            ==> {
            &&& actions@.len() == 0
            &&& next@.phase == HostPhase::Serving
            &&& next@.held == endpoint@.held
            &&& next@.ready.len() == 0
        },
{
    actions_are_seen(actions);
    assert(crate::network::frame::length_value(endpoint@.held) == crate::laws::framing::announced(
        endpoint@.held,
    ));
    assert(actions@.len() > 0 ==> actions@[0]@ == crate::network::host::action_views(actions@)[0]);
}

/// An endpoint is passing a message on exactly after it has asked for that: a step leads there
/// if and only if its one action is to pass a message on.
pub proof fn forwarding_is_asked_for(
    endpoint: HostEndpoint,
    event: HostEvent,
    next: HostEndpoint,
    actions: Vec<HostAction>,
)
    requires
        may_happen(endpoint, event),
        call_ensures(HostEndpoint::step, (endpoint, event), (next, actions)),
    ensures
        next@.phase == HostPhase::Forwarding <==> actions@.len() == 1 && actions@[0] is Forward,
        next@.phase == HostPhase::Writing <==> actions@.len() == 1 && actions@[0] is Write,
{
    actions_are_seen(actions);
    assert(actions@.len() > 0 ==> actions@[0]@ == crate::network::host::action_views(actions@)[0]);
}

/// The messages that an endpoint passes on at its next `count` confirmations, and where it then
/// stands.
pub open spec fn confirmed(host: HostView, count: nat) -> (HostView, Seq<Seq<u8>>)
    decreases count,
{
    if count == 0 {
        (host, Seq::empty())
    } else {
        let (before, passed_on) = confirmed(host, (count - 1) as nat);
        let (after, actions) = before.next(HostEvent::Forwarded);
        (after, passed_on + crate::network::traffic::messages_forwarded(actions))
    }
}

/// Progress: after a read that completes some messages, as many confirmations leave all of them
/// passed on, in order, and the endpoint back at its connection or the connection over.
pub proof fn confirmations_drain_what_is_ready(host: HostView, count: nat)
    requires
        count <= host.ready.len(),
    ensures
        confirmed(host, count).1 == host.ready.take(count as int),
        confirmed(host, count).0.ready == host.ready.skip(count as int),
        confirmed(host, count).0.held == host.held,
        count > 0 ==> confirmed(host, count).0.phase == HostPhase::Forwarding,
        count == host.ready.len() ==> {
            let last = confirmed(host, count + 1).0;
            &&& confirmed(host, count + 1).1 == host.ready
            &&& last.ready.len() == 0
            &&& last.phase == HostPhase::Serving || last.phase == HostPhase::Accepting
        },
    decreases count,
{
    reveal_with_fuel(crate::network::traffic::messages_forwarded, 3);
    if count > 0 {
        let earlier = (count - 1) as nat;
        confirmations_drain_what_is_ready(host, earlier);
        let before = confirmed(host, earlier).0;
        assert(before.ready.skip(1) =~= host.ready.skip(count as int));
        assert(before.ready[0] == host.ready[count - 1]);
        assert(confirmed(host, count).1 =~= host.ready.take(count as int));
    } else {
        assert(host.ready.skip(0) =~= host.ready);
        assert(host.ready.take(0) =~= Seq::empty());
    }
    if count == host.ready.len() {
        assert(confirmed(host, count).0.ready.len() == 0);
        assert(confirmed(host, count + 1).1 =~= host.ready);
    }
}

/// A stream that ends between messages closes the connection; one that ends inside a message
/// ends it as broken. The messages before were passed on.
pub proof fn ended_streams_end_connections(
    endpoint: HostEndpoint,
    next: HostEndpoint,
    actions: Vec<HostAction>,
)
    requires
        in_order(endpoint),
        endpoint@.phase == HostPhase::Serving,
        call_ensures(HostEndpoint::step, (endpoint, HostEvent::StreamEnded), (next, actions)),
    ensures
        endpoint@.held.len() < 4 ==> connection_closed(next, actions),
        endpoint@.held.len() >= 4 ==> connection_ended(
            next,
            actions,
            IoErrorKind::UnexpectedEof,
            "early eof"@,
        ),
{
    actions_are_seen(actions);
    assert(crate::network::frame::length_value(endpoint@.held) == crate::laws::framing::announced(
        endpoint@.held,
    ));
    assert(actions@.len() > 0 ==> actions@[0]@ == crate::network::host::action_views(actions@)[0]);
}

/// A connection that cannot be read, or cannot be written to, ends for that very reason.
pub proof fn failures_end_connections(
    endpoint: HostEndpoint,
    failure: IoFailure,
    event: HostEvent,
    next: HostEndpoint,
    actions: Vec<HostAction>,
)
    requires
        event == HostEvent::ReadFailed(failure) || event == HostEvent::WriteFailed(failure),
        call_ensures(HostEndpoint::step, (endpoint, event), (next, actions)),
    ensures
        connection_ended(next, actions, failure.kind, failure.message@),
{
    actions_are_seen(actions);
    assert(actions@.len() > 0 ==> actions@[0]@ == crate::network::host::action_views(actions@)[0]);
}

/// A connection whose messages nobody takes any more ends as broken.
pub proof fn untaken_messages_end_connections(
    endpoint: HostEndpoint,
    next: HostEndpoint,
    actions: Vec<HostAction>,
)
    requires
        call_ensures(HostEndpoint::step, (endpoint, HostEvent::ForwardFailed), (next, actions)),
    ensures
        connection_ended(next, actions, IoErrorKind::BrokenPipe, "Network controller stopped"@),
{
    actions_are_seen(actions);
    assert(actions@.len() > 0 ==> actions@[0]@ == crate::network::host::action_views(actions@)[0]);
}

/// Progress: every message of the owner up to 64 KiB is written to the runtime as its frame, and
/// what has arrived of the runtime's next message stays as it is. A larger one ends the
/// connection, and so does an owner that will never have one again.
pub proof fn owners_messages_are_written(
    endpoint: HostEndpoint,
    message: Option<Vec<u8>>,
    next: HostEndpoint,
    actions: Vec<HostAction>,
)
    requires
        call_ensures(HostEndpoint::step, (endpoint, HostEvent::Outgoing(message)), (next, actions)),
    ensures
        match message {
            Some(payload) => if payload@.len() <= 65536 {
                &&& actions@.len() == 1
                &&& actions@[0] matches HostAction::Write(frame)
                    && crate::laws::framing::is_frame_of(frame@, payload@)
                &&& next@.phase == HostPhase::Writing
                &&& next@.held == endpoint@.held
                &&& next@.ready == endpoint@.ready
            } else {
                connection_ended(
                    next,
                    actions,
                    IoErrorKind::InvalidData,
                    "Network control message is too large"@,
                )
            },
            None => connection_closed(next, actions),
        },
{
    actions_are_seen(actions);
    assert(actions@.len() > 0 ==> actions@[0]@ == crate::network::host::action_views(actions@)[0]);
    if let Some(payload) = message {
        if payload@.len() <= 65536 {
            if let HostAction::Write(frame) = actions@[0] {
                assert(frame@.skip(4) =~= payload@);
            }
        }
    }
}

/// A message that is written leaves the endpoint serving, with what had arrived before.
pub proof fn written_messages_change_nothing(
    endpoint: HostEndpoint,
    next: HostEndpoint,
    actions: Vec<HostAction>,
)
    requires
        call_ensures(HostEndpoint::step, (endpoint, HostEvent::Written), (next, actions)),
    ensures
        actions@.len() == 0,
        next@.phase == HostPhase::Serving,
        next@.held == endpoint@.held,
        next@.ready == endpoint@.ready,
{
    actions_are_seen(actions);
}

/// An endpoint is made in the directory that holds its path; a path without one is refused.
pub proof fn endpoints_need_a_directory<P>(parent: Option<P>, directory: Result<P, IoFailure>)
    requires
        call_ensures(endpoint_parent::<P>, (parent,), directory),
    ensures
        parent matches Some(found) ==> directory == Ok::<P, IoFailure>(found),
        parent is None ==> (directory matches Err(failure) && failure.kind
            == IoErrorKind::InvalidInput && failure.message@
            == "Network control endpoint has no parent directory"@),
{
}

/// Only a socket is ever removed from the endpoint's path. Nothing there is as good; anything
/// else there is kept and refused by its path, and what cannot be inspected fails as it did.
pub proof fn only_sockets_are_removed(
    endpoint: &str,
    existing: ExistingEndpoint,
    remove: Result<bool, IoFailure>,
)
    requires
        call_ensures(replaces_endpoint, (endpoint, existing), remove),
    ensures
        remove == Ok::<bool, IoFailure>(true) <==> existing is Socket,
        remove == Ok::<bool, IoFailure>(false) <==> (existing matches ExistingEndpoint::Failed(
            failure,
        ) && failure.kind == IoErrorKind::NotFound),
        existing is OtherObject ==> (remove matches Err(failure) && failure.kind
            == IoErrorKind::AlreadyExists && failure.message@
            == "refusing to replace non-socket Network control endpoint "@ + endpoint@),
        existing matches ExistingEndpoint::Failed(failure) ==> failure.kind
            == IoErrorKind::NotFound || (remove matches Err(reported) && reported.kind
            == failure.kind && reported.message@ == failure.message@),
{
}

/// An endpoint tells where it stands.
pub proof fn endpoints_tell_where_they_stand(endpoint: HostEndpoint, phase: HostPhase)
    requires
        call_ensures(HostEndpoint::phase, (&endpoint,), phase),
    ensures
        phase == endpoint@.phase,
{
}

/// What has no condition can be asked for at any time.
pub proof fn anything_can_be_asked_of_an_endpoint<P>(
    endpoint: HostEndpoint,
    parent: Option<P>,
    path: &str,
    existing: ExistingEndpoint,
)
    ensures
        call_requires(HostEndpoint::new, ()),
        call_requires(HostEndpoint::phase, (&endpoint,)),
        call_requires(endpoint_parent::<P>, (parent,)),
        call_requires(replaces_endpoint, (path, existing)),
{
}

/// The limits of an endpoint: how many messages may wait in each direction, and who may enter its
/// directory, which is its owner alone.
pub proof fn endpoints_have_limits()
    ensures
        crate::network::host::HOST_CHANNEL_CAPACITY == 256,
        crate::network::host::ENDPOINT_DIRECTORY_MODE == 7 * 8 * 8,
{
}

} // verus!
