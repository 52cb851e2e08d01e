//! The runtime's session: what each event makes it do, and what it leaves as it was.

use std::collections::HashMap;

use vstd::prelude::*;

use crate::network::message::{
    AuthorizationDecision, ControllerMessage, NetworkOperation, RuntimeMessage,
};
use crate::network::session::{
    abandon_command, Action, AfterWrite, Awaited, Command, Event, PendingAuthorization, Phase,
    Session,
};

verus! {

/// Whether a table holds what another one holds, but for one key that it lacks.
pub open spec fn lacks_only<V>(now: Map<u64, V>, before: Map<u64, V>, key: u64) -> bool {
    &&& !now.contains_key(key)
    &&& forall|other: u64|
        other != key ==> (#[trigger] now.contains_key(other) <==> before.contains_key(other))
    &&& forall|other: u64|
        other != key && #[trigger] now.contains_key(other) ==> now[other] == before[other]
}

/// Whether a table holds what another one holds, but for one key that it holds this under.
pub open spec fn gains_only<V>(now: Map<u64, V>, before: Map<u64, V>, key: u64, value: V) -> bool {
    &&& now.contains_key(key) && now[key] == value
    &&& forall|other: u64|
        other != key ==> (#[trigger] now.contains_key(other) <==> before.contains_key(other))
    &&& forall|other: u64|
        other != key && #[trigger] now.contains_key(other) ==> now[other] == before[other]
}

/// Whether two tables hold the same.
pub open spec fn holds_the_same<V>(now: Map<u64, V>, before: Map<u64, V>) -> bool {
    &&& forall|key: u64| #[trigger] now.contains_key(key) <==> before.contains_key(key)
    &&& forall|key: u64| #[trigger] now.contains_key(key) ==> now[key] == before[key]
}

/// Whether a table holds nothing.
pub open spec fn holds_nothing<V>(table: Map<u64, V>) -> bool {
    forall|key: u64| !table.contains_key(key)
}

/// Whether a session is connected: a request may wait, and a flow may live, only then.
pub open spec fn is_connected<R, W>(session: Session<R, W>) -> bool {
    session@.phase is Ready || session@.phase is Writing
}

/// Whether a command reaches a session at a point where it is connected: it is issued on a live
/// connection, or the connection that was set up for it is there.
pub open spec fn is_reached<R, W>(
    session: Session<R, W>,
    event: Event<R, W>,
    command: Command<R, W>,
) -> bool {
    ||| session@.phase is Ready && event == Event::Issued(command)
    ||| session@.phase == Phase::Connecting(command) && event is Connected
}

/// Whether an event can happen to a session: what its phase waits for may come.
pub open spec fn may_happen<R, W>(session: Session<R, W>, event: Event<R, W>) -> bool {
    match event {
        Event::Issued(_) | Event::CommandsClosed => session@.phase is Idle
            || session@.phase is Ready,
        Event::Connected | Event::ConnectFailed => session@.phase is Connecting,
        Event::Received(_) | Event::StreamEnded => session@.phase is Ready,
        Event::Written | Event::WriteFailed => session@.phase is Writing,
    }
}

/// A fresh session has no connection, holds nothing, and waits for a command.
pub proof fn sessions_start_without_a_connection<R, W>(session: Session<R, W>, awaited: Awaited)
    requires
        call_ensures(Session::<R, W>::new, (), session),
        call_ensures(Session::<R, W>::awaits, (&session,), awaited),
    ensures
        session@.phase is Idle,
        holds_nothing(session@.pending),
        holds_nothing(session@.flows),
        awaited == Awaited::Command,
{
}

/// What a session waits for is what can happen to it: whatever the wait may end in is taken in.
pub proof fn awaited_events_are_taken_in<R, W>(
    session: Session<R, W>,
    awaited: Awaited,
    event: Event<R, W>,
)
    requires
        !is_connected(session) ==> holds_nothing(session@.pending) && holds_nothing(session@.flows),
        call_ensures(Session::<R, W>::awaits, (&session,), awaited),
        match awaited {
            Awaited::Command => event is Issued || event is CommandsClosed,
            Awaited::Connection => event is Connected || event is ConnectFailed,
            Awaited::CommandOrMessage => event is Issued || event is CommandsClosed
                || event is Received || event is StreamEnded,
            Awaited::Write => event is Written || event is WriteFailed,
            Awaited::Nothing => false,
        },
    ensures
        call_requires(Session::<R, W>::step, (session, event)),
{
    if !is_connected(session) {
        assert(session@.pending =~= Map::empty());
        assert(session@.flows =~= Map::empty());
    }
}

/// A session waits for what its phase lets happen.
pub proof fn phases_say_what_is_awaited<R, W>(session: Session<R, W>, awaited: Awaited)
    requires
        call_ensures(Session::<R, W>::awaits, (&session,), awaited),
    ensures
        session@.phase is Idle <==> awaited == Awaited::Command,
        session@.phase is Connecting <==> awaited == Awaited::Connection,
        session@.phase is Ready <==> awaited == Awaited::CommandOrMessage,
        session@.phase is Writing <==> awaited == Awaited::Write,
        session@.phase is Stopped <==> awaited == Awaited::Nothing,
{
}

/// A step leaves a session that holds nothing unless it is connected, so that the next event can
/// be taken in.
pub proof fn steps_keep_sessions_sound<R, W>(
    session: Session<R, W>,
    event: Event<R, W>,
    next: Session<R, W>,
    actions: Vec<Action<R, W>>,
)
    requires
        call_ensures(Session::<R, W>::step, (session, event), (next, actions)),
    ensures
        !is_connected(next) ==> holds_nothing(next@.pending) && holds_nothing(next@.flows),
{
}

/// Progress: every command that is issued to a session without a connection makes it ask for
/// one, and for nothing else, and hold exactly that command until the connection is there or has
/// failed. No operation is refused unasked.
pub proof fn commands_without_a_connection_ask_for_one<R, W>(
    session: Session<R, W>,
    command: Command<R, W>,
    next: Session<R, W>,
    actions: Vec<Action<R, W>>,
)
    requires
        session@.phase is Idle,
        call_ensures(Session::<R, W>::step, (session, Event::Issued(command)), (next, actions)),
    ensures
        actions@.len() == 1,
        actions@[0] is Connect,
        next@.phase == Phase::Connecting(command),
        holds_the_same(next@.pending, session@.pending),
        holds_the_same(next@.flows, session@.flows),
{
}

/// Progress: every request that reaches a connected session is written to the host, with its
/// own numbers and its own operation, and waits for nothing but that write. Requests that wait
/// and flows that live are left alone.
pub proof fn reached_requests_are_written<R, W>(
    session: Session<R, W>,
    event: Event<R, W>,
    request_id: u64,
    flow_id: u64,
    operation: NetworkOperation,
    response: R,
    revoked: W,
    next: Session<R, W>,
    actions: Vec<Action<R, W>>,
)
    requires
        is_reached(
            session,
            event,
            Command::Authorize { request_id, flow_id, operation, response, revoked },
        ),
        call_ensures(Session::<R, W>::step, (session, event), (next, actions)),
    ensures
        actions@.len() == 1,
        actions@[0] == (Action::<R, W>::Write(
            RuntimeMessage::AuthorizationRequest { request_id, flow_id, operation },
        )),
        next@.phase matches Phase::Writing(AfterWrite::Register { request_id: id, pending }) && {
            &&& id == request_id
            &&& pending.flow_id == flow_id
            &&& pending.response == response
            &&& pending.revoked == revoked
        },
        holds_the_same(next@.pending, session@.pending),
        holds_the_same(next@.flows, session@.flows),
{
}

/// Every release is reported: a closed flow that reaches a connected session leads to one action,
/// the report of that flow, whatever else waits or lives. That flow is forgotten, and nothing
/// else is.
pub proof fn closed_flows_are_reported<R, W>(
    session: Session<R, W>,
    event: Event<R, W>,
    flow_id: u64,
    next: Session<R, W>,
    actions: Vec<Action<R, W>>,
)
    requires
        is_reached(session, event, Command::CloseFlow { flow_id }),
        call_ensures(Session::<R, W>::step, (session, event), (next, actions)),
    ensures
        actions@.len() == 1,
        actions@[0] == (Action::<R, W>::Write(RuntimeMessage::FlowClosed { flow_id })),
        next@.phase == Phase::<R, W>::Writing(AfterWrite::Nothing),
        holds_the_same(next@.pending, session@.pending),
        lacks_only(next@.flows, session@.flows, flow_id),
{
}

/// Every withdrawal is reported: a cancelled request that reaches a connected session leads to
/// one action, the report of its flow, whatever else waits or lives. That request and that flow
/// are forgotten, and nothing else is.
pub proof fn cancelled_requests_are_reported<R, W>(
    session: Session<R, W>,
    event: Event<R, W>,
    request_id: u64,
    flow_id: u64,
    next: Session<R, W>,
    actions: Vec<Action<R, W>>,
)
    requires
        is_reached(session, event, Command::Cancel { request_id, flow_id }),
        call_ensures(Session::<R, W>::step, (session, event), (next, actions)),
    ensures
        actions@.len() == 1,
        actions@[0] == (Action::<R, W>::Write(RuntimeMessage::FlowClosed { flow_id })),
        next@.phase == Phase::<R, W>::Writing(AfterWrite::Nothing),
        lacks_only(next@.pending, session@.pending, request_id),
        lacks_only(next@.flows, session@.flows, flow_id),
{
}

/// A failed connection costs the one request that it was for, and nothing else: that request is
/// abandoned, other commands come to nothing, and the session waits for the next command.
pub proof fn failed_connections_cost_one_request<R, W>(
    session: Session<R, W>,
    command: Command<R, W>,
    next: Session<R, W>,
    actions: Vec<Action<R, W>>,
)
    requires
        session@.phase == Phase::Connecting(command),
        call_ensures(Session::<R, W>::step, (session, Event::ConnectFailed), (next, actions)),
    ensures
        command matches Command::Authorize { response, .. } ==> actions@.len() == 1 && actions@[0]
            == (Action::<R, W>::Abandon { response }),
        command !is Authorize ==> actions@.len() == 0,
        next@.phase is Idle,
        holds_the_same(next@.pending, session@.pending),
        holds_the_same(next@.flows, session@.flows),
{
}

/// The actions for a command that no connection could be had for: a request is abandoned.
pub proof fn unconnected_commands_are_abandoned<R, W>(
    command: Command<R, W>,
    actions: Vec<Action<R, W>>,
)
    requires
        call_ensures(abandon_command::<R, W>, (command,), actions),
    ensures
        command matches Command::Authorize { response, .. } ==> actions@.len() == 1 && actions@[0]
            == (Action::<R, W>::Abandon { response }),
        command !is Authorize ==> actions@.len() == 0,
{
}

/// A request waits from the moment that it is on the wire: then it is held under its number, as
/// it was issued, and nothing else changes. Nobody is signalled.
pub proof fn written_requests_wait<R, W>(
    session: Session<R, W>,
    request_id: u64,
    request: PendingAuthorization<R, W>,
    next: Session<R, W>,
    actions: Vec<Action<R, W>>,
)
    requires
        session@.phase == Phase::Writing(
            AfterWrite::Register { request_id, pending: request },
        ),
        call_ensures(Session::<R, W>::step, (session, Event::Written), (next, actions)),
    ensures
        actions@.len() == 0,
        next@.phase is Ready,
        gains_only(next@.pending, session@.pending, request_id, request),
        holds_the_same(next@.flows, session@.flows),
{
}

/// A report that is on the wire leaves everything as it is, and the session ready.
pub proof fn written_reports_change_nothing<R, W>(
    session: Session<R, W>,
    next: Session<R, W>,
    actions: Vec<Action<R, W>>,
)
    requires
        session@.phase == Phase::<R, W>::Writing(AfterWrite::Nothing),
        call_ensures(Session::<R, W>::step, (session, Event::Written), (next, actions)),
    ensures
        actions@.len() == 0,
        next@.phase is Ready,
        holds_the_same(next@.pending, session@.pending),
        holds_the_same(next@.flows, session@.flows),
{
}

/// Whether a session has taken a decision in: the one who waits gets that decision, the request
/// no longer waits, its flow is live under its handle if it was allowed, and nothing else
/// changes.
pub open spec fn decision_is_taken_in<R, W>(
    pending: Map<u64, PendingAuthorization<R, W>>,
    flows: Map<u64, W>,
    request_id: u64,
    decision: AuthorizationDecision,
    next: Session<R, W>,
    actions: Vec<Action<R, W>>,
) -> bool {
    let request = pending[request_id];
    &&& actions@.len() == 1
    &&& actions@[0] == (Action::<R, W>::Respond { response: request.response, decision })
    &&& next@.phase is Ready
    &&& lacks_only(next@.pending, pending, request_id)
    &&& decision is Allow ==> gains_only(next@.flows, flows, request.flow_id, request.revoked)
    &&& decision is Deny ==> holds_the_same(next@.flows, flows)
}

/// Whether a session has taken a revocation in: the flow is told, is no longer live, and nothing
/// else changes.
pub open spec fn revocation_is_taken_in<R, W>(
    pending: Map<u64, PendingAuthorization<R, W>>,
    flows: Map<u64, W>,
    flow_id: u64,
    next: Session<R, W>,
    actions: Vec<Action<R, W>>,
) -> bool {
    &&& actions@.len() == 1
    &&& actions@[0] == (Action::<R, W>::Revoke { revoked: flows[flow_id] })
    &&& next@.phase is Ready
    &&& holds_the_same(next@.pending, pending)
    &&& lacks_only(next@.flows, flows, flow_id)
}

/// Whether a session has let a message pass: nobody is signalled and nothing changes.
pub open spec fn nothing_happened<R, W>(
    pending: Map<u64, PendingAuthorization<R, W>>,
    flows: Map<u64, W>,
    next: Session<R, W>,
    actions: Vec<Action<R, W>>,
) -> bool {
    &&& actions@.len() == 0
    &&& next@.phase is Ready
    &&& holds_the_same(next@.pending, pending)
    &&& holds_the_same(next@.flows, flows)
}

/// A decision on a request that waits reaches the one who waits for it, and nobody else. A
/// decision on any other request comes to nothing.
pub proof fn decisions_reach_who_waits<R, W>(
    session: Session<R, W>,
    request_id: u64,
    decision: AuthorizationDecision,
    next: Session<R, W>,
    actions: Vec<Action<R, W>>,
)
    requires
        session@.phase is Ready,
        call_ensures(
            Session::<R, W>::step,
            (
                session,
                Event::Received(ControllerMessage::AuthorizationDecision { request_id, decision }),
            ),
            (next, actions),
        ),
    ensures
        session@.pending.contains_key(request_id) ==> decision_is_taken_in(
            session@.pending,
            session@.flows,
            request_id,
            decision,
            next,
            actions,
        ),
        !session@.pending.contains_key(request_id) ==> nothing_happened(
            session@.pending,
            session@.flows,
            next,
            actions,
        ),
{
}

/// A revocation of a live flow reaches that flow, and no other. A revocation of any other flow
/// comes to nothing.
pub proof fn revocations_reach_their_flow<R, W>(
    session: Session<R, W>,
    flow_id: u64,
    next: Session<R, W>,
    actions: Vec<Action<R, W>>,
)
    requires
        session@.phase is Ready,
        call_ensures(
            Session::<R, W>::step,
            (session, Event::Received(ControllerMessage::Revoke { flow_id })),
            (next, actions),
        ),
    ensures
        session@.flows.contains_key(flow_id) ==> revocation_is_taken_in(
            session@.pending,
            session@.flows,
            flow_id,
            next,
            actions,
        ),
        !session@.flows.contains_key(flow_id) ==> nothing_happened(
            session@.pending,
            session@.flows,
            next,
            actions,
        ),
{
}

/// A handshake message on a connection that is up comes to nothing.
pub proof fn late_handshakes_come_to_nothing<R, W>(
    session: Session<R, W>,
    protocol: String,
    next: Session<R, W>,
    actions: Vec<Action<R, W>>,
)
    requires
        session@.phase is Ready,
        call_ensures(
            Session::<R, W>::step,
            (session, Event::Received(ControllerMessage::HelloAccepted { protocol })),
            (next, actions),
        ),
    ensures
        nothing_happened(session@.pending, session@.flows, next, actions),
{
}

/// A message of the controller is handled alike on any tables: decisions and revocations reach
/// who they are for, and everything else comes to nothing.
pub proof fn messages_are_handled_on_any_tables<R, W>(
    message: ControllerMessage,
    pending: HashMap<u64, PendingAuthorization<R, W>>,
    flows: HashMap<u64, W>,
    next: Session<R, W>,
    actions: Vec<Action<R, W>>,
)
    requires
        call_ensures(
            Session::<R, W>::handle_controller_message,
            (message, pending, flows),
            (next, actions),
        ),
    ensures
        match message {
            ControllerMessage::AuthorizationDecision { request_id, decision } => if pending@.contains_key(
                request_id,
            ) {
                decision_is_taken_in(pending@, flows@, request_id, decision, next, actions)
            } else {
                nothing_happened(pending@, flows@, next, actions)
            },
            ControllerMessage::Revoke { flow_id } => if flows@.contains_key(flow_id) {
                revocation_is_taken_in(pending@, flows@, flow_id, next, actions)
            } else {
                nothing_happened(pending@, flows@, next, actions)
            },
            ControllerMessage::HelloAccepted { .. } => nothing_happened(
                pending@,
                flows@,
                next,
                actions,
            ),
        },
{
}

/// Losing the connection or the network engine fails closed: the connection is dropped first,
/// every request without a decision is abandoned, among them one that was being written, every
/// live flow is revoked after that, and nobody gets an answer. Nothing stays behind. A session
/// that lost its connection waits for the next command, one that lost the engine is over.
pub proof fn losses_fail_closed<R, W>(
    session: Session<R, W>,
    event: Event<R, W>,
    next: Session<R, W>,
    actions: Vec<Action<R, W>>,
)
    requires
        may_happen(session, event),
        event is CommandsClosed || event is StreamEnded || event is WriteFailed,
        call_ensures(Session::<R, W>::step, (session, event), (next, actions)),
    ensures
        actions@[0] is Close,
        forall|request_id: u64| #[trigger]
            session@.pending.contains_key(request_id) ==> actions@.contains(
                Action::Abandon { response: session@.pending[request_id].response },
            ),
        session@.phase matches Phase::Writing(AfterWrite::Register { pending, .. })
            ==> actions@.contains(Action::Abandon { response: pending.response }),
        forall|flow_id: u64| #[trigger]
            session@.flows.contains_key(flow_id) ==> actions@.contains(
                Action::Revoke { revoked: session@.flows[flow_id] },
            ),
        ({
            let unwritten: nat = if session@.phase matches Phase::Writing(
                AfterWrite::Register { .. },
            ) {
                1
            } else {
                0
            };
            let requests = unwritten + session@.pending.len();
            &&& actions@.len() == 1 + requests + session@.flows.len()
            &&& forall|i: int| 1 <= i <= requests ==> #[trigger] actions@[i] is Abandon
            &&& forall|i: int| requests < i < actions@.len() ==> #[trigger] actions@[i] is Revoke
        }),
        holds_nothing(next@.pending),
        holds_nothing(next@.flows),
        event is CommandsClosed ==> next@.phase is Stopped,
        event !is CommandsClosed ==> next@.phase is Idle,
{
    crate::network::session::teardown_leaves_nothing(session@, event, next@, actions@);
    crate::network::session::teardowns_are_ordered(session@, event, next@, actions@);
}

/// Progress: a request is abandoned only where the transport failed it: after a failed
/// connection, a failed write, or the loss of the connection or the engine.
pub proof fn requests_are_abandoned_for_a_reason<R, W>(
    session: Session<R, W>,
    event: Event<R, W>,
    next: Session<R, W>,
    actions: Vec<Action<R, W>>,
    i: int,
)
    requires
        may_happen(session, event),
        call_ensures(Session::<R, W>::step, (session, event), (next, actions)),
        0 <= i < actions@.len(),
        actions@[i] is Abandon,
    ensures
        event is ConnectFailed || event is WriteFailed || event is StreamEnded
            || event is CommandsClosed,
{
}

/// What has no condition can be asked for at any time.
pub proof fn anything_can_be_asked_of_a_session<R, W>(
    session: Session<R, W>,
    command: Command<R, W>,
    message: ControllerMessage,
    pending: HashMap<u64, PendingAuthorization<R, W>>,
    flows: HashMap<u64, W>,
)
    ensures
        call_requires(Session::<R, W>::new, ()),
        call_requires(Session::<R, W>::awaits, (&session,)),
        call_requires(abandon_command::<R, W>, (command,)),
        call_requires(Session::<R, W>::handle_controller_message, (message, pending, flows)),
{
}

} // verus!
