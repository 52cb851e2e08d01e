//! What holds of a session over its whole life, from the first event on.

use vstd::prelude::*;

use crate::network::client::{AuthorizationError, AuthorizationOutcome};
use crate::network::message::{AuthorizationDecision, ControllerMessage, NetworkOperation};
use crate::network::session::{
    Action, AfterWrite, Command, Event, PendingAuthorization, Phase, Session, SessionView,
};

verus! {

/// The life of a session up to some point: the events that it took in, the states that it was
/// in before and after each, and the actions that it asked for at each.
pub struct History<R, W> {
    /// The states, from the first to the present one.
    pub states: Seq<SessionView<R, W>>,
    /// The events.
    pub events: Seq<Event<R, W>>,
    /// The actions asked for at each event.
    pub actions: Seq<Seq<Action<R, W>>>,
}

impl<R, W> History<R, W> {
    /// The session began without a connection, and each event led to the state and the actions
    /// that stand beside it.
    pub open spec fn valid(self) -> bool {
        &&& self.states.len() == self.events.len() + 1
        &&& self.actions.len() == self.events.len()
        &&& self.states[0] == SessionView::<R, W>::empty(Phase::Idle)
        &&& forall|k: int| 0 <= k < self.events.len() ==> #[trigger] self.stepped(k)
    }

    /// The event at `k` could happen there, and led to what stands beside it.
    pub open spec fn stepped(self, k: int) -> bool {
        &&& self.states[k].expects(self.events[k])
        &&& self.states[k].leads_to(self.events[k], self.states[k + 1], self.actions[k])
    }

    /// The network engine asked at `i` for a decision on this operation, under this number.
    pub open spec fn issued(
        self,
        i: int,
        request_id: u64,
        operation: NetworkOperation,
        request: PendingAuthorization<R, W>,
    ) -> bool {
        &&& 0 <= i < self.events.len()
        &&& self.events[i] == Event::Issued(
            Command::Authorize {
                request_id,
                flow_id: request.flow_id,
                operation,
                response: request.response,
                revoked: request.revoked,
            },
        )
    }

    /// The network engine asked at `i` under this number.
    pub open spec fn asks(self, i: int, request_id: u64) -> bool {
        &&& 0 <= i < self.events.len()
        &&& self.events[i] matches Event::Issued(Command::Authorize { request_id: id, .. })
            && id == request_id
    }

    /// No number was used for two requests.
    pub open spec fn numbered_apart(self) -> bool {
        forall|i: int, j: int, request_id: u64|
            #[trigger] self.asks(i, request_id) && #[trigger] self.asks(j, request_id) ==> i == j
    }

    /// Every call has a flow and a handle of its own: no flow and no handle was used for two
    /// requests.
    pub open spec fn calls_apart(self) -> bool {
        forall|
            a: int,
            b: int,
            first_id: u64,
            second_id: u64,
            first_operation: NetworkOperation,
            second_operation: NetworkOperation,
            first: PendingAuthorization<R, W>,
            second: PendingAuthorization<R, W>,
        |
            #[trigger] self.issued(a, first_id, first_operation, first) && #[trigger] self.issued(
                b,
                second_id,
                second_operation,
                second,
            ) && (first.flow_id == second.flow_id || first.revoked == second.revoked) ==> a == b
    }

    /// The request went to the host at `j`: a message with its numbers and this operation was
    /// being written, and the write succeeded.
    pub open spec fn sent(
        self,
        j: int,
        request_id: u64,
        operation: NetworkOperation,
        request: PendingAuthorization<R, W>,
    ) -> bool {
        &&& 0 < j < self.events.len()
        &&& Session::<R, W>::request_written(
            self.actions[j - 1],
            request_id,
            request.flow_id,
            operation,
        )
        &&& self.events[j] is Written
        &&& self.states[j].phase == Phase::Writing(
            AfterWrite::Register { request_id, pending: request },
        )
    }

    /// The host decided at `k` on a request that waited.
    pub open spec fn decided(
        self,
        k: int,
        request_id: u64,
        decision: AuthorizationDecision,
    ) -> bool {
        &&& 0 <= k < self.events.len()
        &&& self.states[k].phase is Ready
        &&& self.states[k].pending.contains_key(request_id)
        &&& self.events[k] == Event::<R, W>::Received(
            ControllerMessage::AuthorizationDecision { request_id, decision },
        )
    }

    /// The host allowed the flow at `j`, in answer to a request that waited for it.
    pub open spec fn allowed(self, j: int, request_id: u64, flow_id: u64, revoked: W) -> bool {
        &&& self.decided(j, request_id, AuthorizationDecision::Allow)
        &&& self.states[j].pending[request_id].flow_id == flow_id
        &&& self.states[j].pending[request_id].revoked == revoked
    }

    /// What happened at `m` takes the permission for the flow away: the host revoked the flow,
    /// or the connection or the network engine was lost.
    pub open spec fn revokes(self, m: int, flow_id: u64) -> bool {
        match self.events[m] {
            Event::WriteFailed | Event::StreamEnded | Event::CommandsClosed => true,
            Event::Received(ControllerMessage::Revoke { flow_id: revoked }) => revoked == flow_id,
            _ => false,
        }
    }

    /// What happened at `m` gives the permission for the flow back: its owner closed the flow
    /// or gave the request for it up.
    pub open spec fn releases(self, m: int, flow_id: u64) -> bool {
        match self.events[m] {
            Event::Issued(Command::CloseFlow { flow_id: closed }) => closed == flow_id,
            Event::Issued(Command::Cancel { flow_id: closed, .. }) => closed == flow_id,
            _ => false,
        }
    }

    /// What happened at `m` ends the flow.
    pub open spec fn ends_flow(self, m: int, flow_id: u64) -> bool {
        self.revokes(m, flow_id) || self.releases(m, flow_id)
    }

    /// The one who holds this handle was told at `m` that the flow is revoked.
    pub open spec fn tells(self, m: int, revoked: W) -> bool {
        self.actions[m].contains(Action::Revoke { revoked })
    }

    /// The one who holds this handle was told after `j` and before `k` that the flow is revoked.
    pub open spec fn told_between(self, j: int, k: int, revoked: W) -> bool {
        exists|m: int| j < m < k && #[trigger] self.tells(m, revoked)
    }

    /// Something took the permission for the flow away after `j` and before `k`.
    pub open spec fn revoked_between(self, j: int, k: int, flow_id: u64) -> bool {
        exists|m: int| j < m < k && #[trigger] self.revokes(m, flow_id)
    }

    /// At `m`, no flow but this one is live under this handle.
    pub open spec fn only_flow_of(self, m: int, flow_id: u64, revoked: W) -> bool {
        forall|other: u64| #[trigger]
            self.states[m].flows.contains_key(other) && self.states[m].flows[other] == revoked
                ==> other == flow_id
    }
}

/// A session never holds requests or flows without a connection.
pub proof fn sessions_stay_sound<R, W>(history: History<R, W>, k: int)
    requires
        history.valid(),
        0 <= k <= history.events.len(),
    ensures
        history.states[k].wf(),
    decreases k,
{
    if k > 0 {
        sessions_stay_sound(history, k - 1);
        assert(history.stepped(k - 1));
    }
}

/// A command that waits for a connection was the last thing to happen.
proof fn connecting_commands_were_issued<R, W>(history: History<R, W>, k: int)
    requires
        history.valid(),
        0 <= k <= history.events.len(),
    ensures
        history.states[k].phase matches Phase::Connecting(command) ==> k > 0
            && history.events[k - 1] == Event::Issued(command),
{
    if k > 0 {
        assert(history.stepped(k - 1));
    }
}

/// A request that is being written was issued just before, or just before the connection for
/// it was set up, and is written with the operation that it was issued with.
proof fn written_requests_were_issued<R, W>(
    history: History<R, W>,
    k: int,
    request_id: u64,
    request: PendingAuthorization<R, W>,
)
    requires
        history.valid(),
        0 <= k <= history.events.len(),
        history.states[k].phase == Phase::Writing(
            AfterWrite::Register { request_id, pending: request },
        ),
    ensures
        k > 0,
        exists|i: int, operation: NetworkOperation|
            {
                &&& k - 2 <= i < k
                &&& #[trigger] history.issued(i, request_id, operation, request)
                &&& Session::<R, W>::request_written(
                    history.actions[k - 1],
                    request_id,
                    request.flow_id,
                    operation,
                )
            },
{
    if k > 0 {
        let before = history.states[k - 1];
        assert(history.stepped(k - 1));
        connecting_commands_were_issued(history, k - 1);
        crate::network::session::requests_are_written_as_issued(
            before,
            history.events[k - 1],
            history.states[k],
            history.actions[k - 1],
            request_id,
            request,
        );
        let command = match before.phase {
            Phase::Connecting(command) => command,
            _ => history.events[k - 1]->Issued_0,
        };
        if let Command::Authorize { operation, .. } = command {
            if before.phase is Connecting {
                assert(history.issued(k - 2, request_id, operation, request));
            } else {
                assert(history.issued(k - 1, request_id, operation, request));
            }
        }
    }
}

/// The host only ever decides on what it was asked: a request that waits for a decision was
/// issued by the network engine, and was written to the host, with its operation, after that.
pub proof fn waiting_requests_were_sent<R, W>(history: History<R, W>, k: int, request_id: u64)
    requires
        history.valid(),
        0 <= k <= history.events.len(),
        history.states[k].pending.contains_key(request_id),
    ensures
        exists|i: int, j: int, operation: NetworkOperation|
            {
                &&& i < j < k
                &&& #[trigger] history.issued(
                    i,
                    request_id,
                    operation,
                    history.states[k].pending[request_id],
                )
                &&& #[trigger] history.sent(
                    j,
                    request_id,
                    operation,
                    history.states[k].pending[request_id],
                )
            },
    decreases k,
{
    let request = history.states[k].pending[request_id];
    if k > 0 {
        assert(history.stepped(k - 1));
        let before = history.states[k - 1];
        if before.pending.contains_key(request_id) && before.pending[request_id] == request {
            waiting_requests_were_sent(history, k - 1, request_id);
        } else {
            written_requests_were_issued(history, k - 1, request_id, request);
            let (i, operation) = choose|i: int, operation: NetworkOperation|
                {
                    &&& k - 3 <= i < k - 1
                    &&& #[trigger] history.issued(i, request_id, operation, request)
                    &&& Session::<R, W>::request_written(
                        history.actions[k - 2],
                        request_id,
                        request.flow_id,
                        operation,
                    )
                };
            assert(history.issued(i, request_id, operation, request));
            assert(history.sent(k - 1, request_id, operation, request));
        }
    }
}

/// A request stops waiting once and for all: one that was answered, given up or abandoned with
/// its connection never waits again, as long as no number is used for two requests.
pub proof fn requests_stop_waiting_once<R, W>(
    history: History<R, W>,
    k: int,
    m: int,
    request_id: u64,
)
    requires
        history.valid(),
        history.numbered_apart(),
        0 <= k < m <= history.events.len(),
        history.states[k].pending.contains_key(request_id),
        !history.states[k + 1].pending.contains_key(request_id),
    ensures
        !history.states[m].pending.contains_key(request_id),
    decreases m,
{
    if m > k + 1 {
        requests_stop_waiting_once(history, k, m - 1, request_id);
        assert(history.stepped(m - 1));
        if history.states[m].pending.contains_key(request_id) {
            let later = history.states[m].pending[request_id];
            written_requests_were_issued(history, m - 1, request_id, later);
            let (again, _) = choose|i: int, operation: NetworkOperation|
                m - 3 <= i < m - 1 && #[trigger] history.issued(i, request_id, operation, later);
            waiting_requests_were_sent(history, k, request_id);
            let earlier = history.states[k].pending[request_id];
            let (first, _, _) = choose|i: int, j: int, operation: NetworkOperation|
                {
                    &&& i < j < k
                    &&& #[trigger] history.issued(i, request_id, operation, earlier)
                    &&& #[trigger] history.sent(j, request_id, operation, earlier)
                };
            assert(history.asks(first, request_id));
            assert(history.asks(again, request_id));
        }
    }
}

/// The host decides on a request once, as long as no number is used for two requests: what it
/// says about the request again decides nothing.
pub proof fn requests_are_decided_once<R, W>(
    history: History<R, W>,
    k: int,
    m: int,
    request_id: u64,
    first: AuthorizationDecision,
    second: AuthorizationDecision,
)
    requires
        history.valid(),
        history.numbered_apart(),
        history.decided(k, request_id, first),
        history.decided(m, request_id, second),
    ensures
        k == m,
        first == second,
{
    assert(history.stepped(k));
    assert(history.stepped(m));
    if k < m {
        requests_stop_waiting_once(history, k, m, request_id);
    } else if m < k {
        requests_stop_waiting_once(history, m, k, request_id);
    }
}

/// An answer goes only to one who asked, and is what the host decided: the network engine
/// issued the request with this way back, the request was written to the host with its
/// operation, and the host decides on it now. In particular nobody is told of a denial that the
/// host did not send.
pub proof fn answers_were_asked_for<R, W>(history: History<R, W>, k: int, a: int)
    requires
        history.valid(),
        0 <= k < history.events.len(),
        0 <= a < history.actions[k].len(),
        history.actions[k][a] is Respond,
    ensures
        exists|
            i: int,
            j: int,
            request_id: u64,
            operation: NetworkOperation,
            request: PendingAuthorization<R, W>,
            decision: AuthorizationDecision,
        |
            {
                &&& i < j < k
                &&& #[trigger] history.issued(i, request_id, operation, request)
                &&& #[trigger] history.sent(j, request_id, operation, request)
                &&& #[trigger] history.decided(k, request_id, decision)
                &&& history.states[k].pending[request_id] == request
                &&& history.actions[k][a] == (Action::<R, W>::Respond {
                    response: request.response,
                    decision,
                })
            },
{
    assert(history.stepped(k));
    crate::network::session::only_the_host_decides(
        history.states[k],
        history.events[k],
        history.states[k + 1],
        history.actions[k],
        a,
    );
    if let Event::Received(ControllerMessage::AuthorizationDecision { request_id, decision }) =
        history.events[k] {
        let request = history.states[k].pending[request_id];
        waiting_requests_were_sent(history, k, request_id);
        let (i, j, operation) = choose|i: int, j: int, operation: NetworkOperation|
            {
                &&& i < j < k
                &&& #[trigger] history.issued(i, request_id, operation, request)
                &&& #[trigger] history.sent(j, request_id, operation, request)
            };
        assert(history.issued(i, request_id, operation, request));
        assert(history.sent(j, request_id, operation, request));
        assert(history.decided(k, request_id, decision));
    }
}

/// A call gets the host's own decision: where a request is the only one with its way back, an
/// answer that goes there is what the host decided on that very request. So a call that ends as
/// denied was denied by the host, explicitly, and one that ends in a grant was allowed by it.
pub proof fn calls_get_the_hosts_decision<R, W>(
    history: History<R, W>,
    i: int,
    request_id: u64,
    operation: NetworkOperation,
    request: PendingAuthorization<R, W>,
    k: int,
    decision: AuthorizationDecision,
)
    requires
        history.valid(),
        history.issued(i, request_id, operation, request),
        forall|
            other: int,
            other_id: u64,
            other_operation: NetworkOperation,
            other_request: PendingAuthorization<R, W>,
        |
            #[trigger] history.issued(other, other_id, other_operation, other_request)
                && other_request.response == request.response ==> other == i,
        0 <= k < history.events.len(),
        history.actions[k].contains(Action::Respond { response: request.response, decision }),
    ensures
        i < k,
        history.decided(k, request_id, decision),
        crate::network::client::refusal(AuthorizationOutcome::Decided(decision)) == Some(
            AuthorizationError::Denied,
        ) <==> history.decided(k, request_id, AuthorizationDecision::Deny),
        crate::network::client::refusal(AuthorizationOutcome::Decided(decision)) is None
            <==> history.decided(k, request_id, AuthorizationDecision::Allow),
{
    let actions = history.actions[k];
    let a = choose|a: int|
        0 <= a < actions.len() && actions[a] == (Action::<R, W>::Respond {
            response: request.response,
            decision,
        });
    answers_were_asked_for(history, k, a);
    let (first, _, id, asked, waiting, given) = choose|
        first: int,
        j: int,
        id: u64,
        asked: NetworkOperation,
        waiting: PendingAuthorization<R, W>,
        given: AuthorizationDecision,
    |
        {
            &&& first < j < k
            &&& #[trigger] history.issued(first, id, asked, waiting)
            &&& #[trigger] history.sent(j, id, asked, waiting)
            &&& #[trigger] history.decided(k, id, given)
            &&& history.states[k].pending[id] == waiting
            &&& history.actions[k][a] == (Action::<R, W>::Respond {
                response: waiting.response,
                decision: given,
            })
        };
    assert(history.issued(first, id, asked, waiting));
}

/// No flow is live without the host's permission: a flow that may be revoked was allowed in
/// answer to a request that waited, and nothing that ends a flow has happened to it since.
pub proof fn live_flows_were_allowed<R, W>(history: History<R, W>, k: int, flow_id: u64)
    requires
        history.valid(),
        0 <= k <= history.events.len(),
        history.states[k].flows.contains_key(flow_id),
    ensures
        exists|j: int, request_id: u64|
            {
                &&& j < k
                &&& #[trigger] history.allowed(
                    j,
                    request_id,
                    flow_id,
                    history.states[k].flows[flow_id],
                )
                &&& forall|m: int| j < m < k ==> !#[trigger] history.ends_flow(m, flow_id)
            },
    decreases k,
{
    let revoked = history.states[k].flows[flow_id];
    if k > 0 {
        assert(history.stepped(k - 1));
        let before = history.states[k - 1];
        let event = history.events[k - 1];
        if before.flows.contains_key(flow_id) && before.flows[flow_id] == revoked {
            live_flows_were_allowed(history, k - 1, flow_id);
            let (j, request_id) = choose|j: int, request_id: u64|
                {
                    &&& j < k - 1
                    &&& #[trigger] history.allowed(j, request_id, flow_id, revoked)
                    &&& forall|m: int| j < m < k - 1 ==> !#[trigger] history.ends_flow(m, flow_id)
                };
            sessions_stay_sound(history, k - 1);
            assert(!history.ends_flow(k - 1, flow_id));
            assert(history.allowed(j, request_id, flow_id, revoked));
        } else if let Event::Received(
            ControllerMessage::AuthorizationDecision { request_id, .. },
        ) = event {
            assert(history.allowed(k - 1, request_id, flow_id, revoked));
        }
    }
}

/// A grant stays revocable: a flow that the host allowed is live for as long as nothing ends
/// it, under the handle that it was asked for with, unless the host allows it again under
/// another one.
pub proof fn allowed_flows_stay_revocable<R, W>(
    history: History<R, W>,
    j: int,
    k: int,
    request_id: u64,
    flow_id: u64,
    revoked: W,
)
    requires
        history.valid(),
        history.allowed(j, request_id, flow_id, revoked),
        j < k <= history.events.len(),
        forall|m: int| j < m < k ==> !#[trigger] history.ends_flow(m, flow_id),
        forall|m: int, other: u64, w: W|
            j < m < k && #[trigger] history.allowed(m, other, flow_id, w) ==> w == revoked,
    ensures
        history.states[k].flows.contains_key(flow_id),
        history.states[k].flows[flow_id] == revoked,
    decreases k,
{
    assert(history.stepped(k - 1));
    if k > j + 1 {
        allowed_flows_stay_revocable(history, j, k - 1, request_id, flow_id, revoked);
        sessions_stay_sound(history, k - 1);
        let before = history.states[k - 1];
        assert(!history.ends_flow(k - 1, flow_id));
        if let Event::Received(
            ControllerMessage::AuthorizationDecision { request_id: other, decision },
        ) = history.events[k - 1] {
            if decision == AuthorizationDecision::Allow && before.pending.contains_key(other)
                && before.pending[other].flow_id == flow_id {
                assert(history.allowed(k - 1, other, flow_id, before.pending[other].revoked));
            }
        }
    }
}

/// The owner of a live flow is told of its end at once, and of nothing else: at the next event
/// the handle is told exactly where the host revokes this flow, or the connection or the
/// network engine is lost.
pub proof fn live_flows_are_told_of_their_end<R, W>(
    history: History<R, W>,
    k: int,
    flow_id: u64,
    revoked: W,
)
    requires
        history.valid(),
        0 <= k < history.events.len(),
        history.states[k].flows.contains_key(flow_id),
        history.states[k].flows[flow_id] == revoked,
        history.only_flow_of(k, flow_id, revoked),
    ensures
        history.tells(k, revoked) <==> history.revokes(k, flow_id),
{
    let session = history.states[k];
    let event = history.events[k];
    let actions = history.actions[k];
    assert(history.stepped(k));
    if history.tells(k, revoked) {
        told_flows_were_revoked(history, k, flow_id, revoked);
    }
    if history.revokes(k, flow_id) {
        if event is Received {
            assert(actions[0] == (Action::<R, W>::Revoke { revoked }));
        } else {
            crate::network::session::teardown_leaves_nothing(
                session,
                event,
                history.states[k + 1],
                actions,
            );
        }
    }
}

proof fn told_flows_were_revoked<R, W>(
    history: History<R, W>,
    k: int,
    flow_id: u64,
    revoked: W,
)
    requires
        history.valid(),
        0 <= k < history.events.len(),
        history.only_flow_of(k, flow_id, revoked),
        history.tells(k, revoked),
    ensures
        history.revokes(k, flow_id),
{
    let session = history.states[k];
    let actions = history.actions[k];
    assert(history.stepped(k));
    let i = choose|i: int|
        0 <= i < actions.len() && actions[i] == (Action::<R, W>::Revoke { revoked });
    crate::network::session::revocations_have_a_cause(
        session,
        history.events[k],
        history.states[k + 1],
        actions,
        i,
    );
}

/// Two permissions for one flow, or under one handle, answer the same request where every call
/// has a flow and a handle of its own.
proof fn permissions_are_apart<R, W>(
    history: History<R, W>,
    j: int,
    request_id: u64,
    flow_id: u64,
    revoked: W,
    m: int,
    other_id: u64,
    other_flow: u64,
    other_revoked: W,
)
    requires
        history.valid(),
        history.calls_apart(),
        history.allowed(j, request_id, flow_id, revoked),
        history.allowed(m, other_id, other_flow, other_revoked),
        flow_id == other_flow || revoked == other_revoked,
    ensures
        flow_id == other_flow,
        revoked == other_revoked,
{
    let first = history.states[j].pending[request_id];
    let second = history.states[m].pending[other_id];
    waiting_requests_were_sent(history, j, request_id);
    waiting_requests_were_sent(history, m, other_id);
    let (a, _, first_operation) = choose|a: int, b: int, operation: NetworkOperation|
        {
            &&& a < b < j
            &&& #[trigger] history.issued(a, request_id, operation, first)
            &&& #[trigger] history.sent(b, request_id, operation, first)
        };
    let (c, _, second_operation) = choose|c: int, d: int, operation: NetworkOperation|
        {
            &&& c < d < m
            &&& #[trigger] history.issued(c, other_id, operation, second)
            &&& #[trigger] history.sent(d, other_id, operation, second)
        };
    assert(history.issued(a, request_id, first_operation, first));
    assert(history.issued(c, other_id, second_operation, second));
}

/// A grant is revoked exactly when it should be, where every call has a flow and a handle of its
/// own: between the permission and any later point at which its owner still holds it, its handle
/// has been told if and only if the host has revoked the flow or the connection or the network
/// engine has been lost. A revocation of another flow tells it nothing, and what it was told it
/// stays told.
pub proof fn grants_are_revoked_exactly<R, W>(
    history: History<R, W>,
    j: int,
    k: int,
    request_id: u64,
    flow_id: u64,
    revoked: W,
)
    requires
        history.valid(),
        history.calls_apart(),
        history.allowed(j, request_id, flow_id, revoked),
        j < k <= history.events.len(),
        forall|m: int| j < m < k ==> !#[trigger] history.releases(m, flow_id),
    ensures
        history.told_between(j, k, revoked) <==> history.revoked_between(j, k, flow_id),
        forall|later: int|
            k <= later && history.told_between(j, k, revoked) ==> #[trigger] history.told_between(
                j,
                later,
                revoked,
            ),
    decreases k,
{
    if k > j + 1 {
        grants_are_revoked_exactly(history, j, k - 1, request_id, flow_id, revoked);
        if history.told_between(j, k, revoked) {
            let m = choose|m: int| j < m < k && #[trigger] history.tells(m, revoked);
            handles_serve_one_flow(history, j, request_id, flow_id, revoked, m);
            told_flows_were_revoked(history, m, flow_id, revoked);
            assert(history.revokes(m, flow_id));
        }
        if history.revoked_between(j, k, flow_id) {
            if history.revoked_between(j, k - 1, flow_id) {
                let m = choose|m: int| j < m < k - 1 && #[trigger] history.tells(m, revoked);
                assert(history.tells(m, revoked));
            } else {
                assert(history.revokes(k - 1, flow_id));
                assert forall|m: int| j < m < k - 1 implies !#[trigger] history.ends_flow(
                    m,
                    flow_id,
                ) by {
                    assert(!history.revokes(m, flow_id));
                    assert(!history.releases(m, flow_id));
                }
                assert forall|m: int, other: u64, w: W|
                    j < m < k - 1 && #[trigger] history.allowed(m, other, flow_id, w) implies w
                    == revoked by {
                    permissions_are_apart(
                        history,
                        j,
                        request_id,
                        flow_id,
                        revoked,
                        m,
                        other,
                        flow_id,
                        w,
                    );
                }
                allowed_flows_stay_revocable(history, j, k - 1, request_id, flow_id, revoked);
                handles_serve_one_flow(history, j, request_id, flow_id, revoked, k - 1);
                live_flows_are_told_of_their_end(history, k - 1, flow_id, revoked);
                assert(history.tells(k - 1, revoked));
            }
        }
    }
    assert forall|later: int|
        k <= later && history.told_between(
            j,
            k,
            revoked,
        ) implies #[trigger] history.told_between(j, later, revoked) by {
        let m = choose|m: int| j < m < k && #[trigger] history.tells(m, revoked);
        assert(history.tells(m, revoked));
    }
}

/// The handle of a permission never serves another flow where every call has a flow and a handle
/// of its own.
proof fn handles_serve_one_flow<R, W>(
    history: History<R, W>,
    j: int,
    request_id: u64,
    flow_id: u64,
    revoked: W,
    m: int,
)
    requires
        history.valid(),
        history.calls_apart(),
        history.allowed(j, request_id, flow_id, revoked),
        0 <= m <= history.events.len(),
    ensures
        history.only_flow_of(m, flow_id, revoked),
{
    assert forall|other: u64| #[trigger]
        history.states[m].flows.contains_key(other) && history.states[m].flows[other]
            == revoked implies other == flow_id by {
        live_flows_were_allowed(history, m, other);
        let (i, other_id) = choose|i: int, other_id: u64|
            {
                &&& i < m
                &&& #[trigger] history.allowed(i, other_id, other, revoked)
                &&& forall|n: int| i < n < m ==> !#[trigger] history.ends_flow(n, other)
            };
        permissions_are_apart(
            history,
            j,
            request_id,
            flow_id,
            revoked,
            i,
            other_id,
            other,
            revoked,
        );
    }
}

} // verus!
