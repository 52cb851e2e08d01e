//! Decisions of the runtime-side client: what it does with each command of the network
//! engine and with each message of the host controller.
//!
//! The session keeps the requests that wait for a decision and the flows that the host may
//! still revoke. `R` stands for the way back to the one who waits for a decision, `W` for the
//! way to tell a live flow that it is revoked; the session only ever moves them. What the
//! session answers is what the host decided: a request that the transport fails is abandoned,
//! not denied. The handles of a cancelled request are dropped, since nobody waits for it.

use std::collections::HashMap;

use vstd::prelude::*;

use crate::network::message::{
    AuthorizationDecision, ControllerMessage, NetworkOperation, RuntimeMessage,
};

verus! {

broadcast use vstd::std_specs::hash::group_hash_axioms;

/// Request of the network engine to its client.
pub enum Command<R, W> {
    /// Obtain the host's decision on an operation.
    Authorize {
        /// Identifier of the request.
        request_id: u64,
        /// Identifier of the flow that an allowed operation opens.
        flow_id: u64,
        /// The operation.
        operation: NetworkOperation,
        /// Where the decision goes.
        response: R,
        /// Where a later revocation goes.
        revoked: W,
    },
    /// Give up a request whose deadline has passed.
    Cancel {
        /// Identifier of the request.
        request_id: u64,
        /// Identifier of its flow.
        flow_id: u64,
    },
    /// Release a completed flow.
    CloseFlow {
        /// Identifier of the flow.
        flow_id: u64,
    },
}

/// A request that waits for the host's decision.
pub struct PendingAuthorization<R, W> {
    /// Identifier of the flow that an allowed operation opens.
    pub flow_id: u64,
    /// Where the decision goes.
    pub response: R,
    /// Where a later revocation goes.
    pub revoked: W,
}

/// What is left to do for a command once its message is on the wire.
pub enum AfterWrite<R, W> {
    /// Keep the request until the host decides.
    Register {
        /// Identifier of the request.
        request_id: u64,
        /// The request.
        pending: PendingAuthorization<R, W>,
    },
    /// Nothing.
    Nothing,
}

/// Where the session stands, and so what it waits for.
pub enum Phase<R, W> {
    /// No connection; the next command decides.
    Idle,
    /// A connection is being set up for this command.
    Connecting(Command<R, W>),
    /// Connected; the next command or controller message decides.
    Ready,
    /// Connected, with the message of a command being written.
    Writing(AfterWrite<R, W>),
    /// No more commands will come.
    Stopped,
}

/// What can happen to a session.
pub enum Event<R, W> {
    /// The network engine issued a command.
    Issued(Command<R, W>),
    /// The network engine is gone.
    CommandsClosed,
    /// The connection is up and the handshake was accepted.
    Connected,
    /// The connection or the handshake failed, or took too long.
    ConnectFailed,
    /// The message was written.
    Written,
    /// The message could not be written.
    WriteFailed,
    /// The controller sent a message.
    Received(ControllerMessage),
    /// The controller's stream ended, or held no acceptable message.
    StreamEnded,
}

/// What a session asks for.
pub enum Action<R, W> {
    /// Connect and shake hands, within the time allowed for it.
    Connect,
    /// Write a message to the controller.
    Write(RuntimeMessage),
    /// Drop the connection.
    Close,
    /// Hand the host's decision to the one who waits for it.
    Respond {
        /// Where it goes.
        response: R,
        /// The decision.
        decision: AuthorizationDecision,
    },
    /// Let the one who waits know that no decision will come.
    Abandon {
        /// Where the decision would have gone.
        response: R,
    },
    /// Tell a live flow that it is revoked.
    Revoke {
        /// Where it goes.
        revoked: W,
    },
}

/// Runtime-side session with one host controller.
pub struct Session<R, W> {
    phase: Phase<R, W>,
    pending: HashMap<u64, PendingAuthorization<R, W>>,
    flows: HashMap<u64, W>,
}

/// What a session holds.
pub struct SessionView<R, W> {
    /// Where it stands.
    pub phase: Phase<R, W>,
    /// The requests that wait for a decision.
    pub pending: Map<u64, PendingAuthorization<R, W>>,
    /// The flows that may be revoked.
    pub flows: Map<u64, W>,
}

impl<R, W> View for Session<R, W> {
    type V = SessionView<R, W>;

    closed spec fn view(&self) -> SessionView<R, W> {
        SessionView { phase: self.phase, pending: self.pending@, flows: self.flows@ }
    }
}

impl<R, W> SessionView<R, W> {
    /// Nothing waits and nothing lives without a connection.
    pub open spec fn wf(self) -> bool {
        !(self.phase is Ready || self.phase is Writing) ==> {
            &&& self.pending == Map::<u64, PendingAuthorization<R, W>>::empty()
            &&& self.flows == Map::<u64, W>::empty()
        }
    }

    /// Whether an event can happen in this phase.
    pub open spec fn expects(self, event: Event<R, W>) -> bool {
        match self.phase {
            Phase::Idle => event is Issued || event is CommandsClosed,
            Phase::Connecting(_) => event is Connected || event is ConnectFailed,
            Phase::Ready => event is Issued || event is CommandsClosed || event is Received
                || event is StreamEnded,
            Phase::Writing(_) => event is Written || event is WriteFailed,
            Phase::Stopped => false,
        }
    }

    /// The same tables in another phase.
    pub open spec fn at(self, phase: Phase<R, W>) -> Self {
        SessionView { phase, ..self }
    }

    /// A session with these requests and flows.
    pub open spec fn of(
        phase: Phase<R, W>,
        pending: Map<u64, PendingAuthorization<R, W>>,
        flows: Map<u64, W>,
    ) -> Self {
        SessionView { phase, pending, flows }
    }

    /// A session without requests and flows.
    pub open spec fn empty(phase: Phase<R, W>) -> Self {
        SessionView { phase, pending: Map::empty(), flows: Map::empty() }
    }

    /// What a connected session does with a command: a request is written and kept once it is
    /// on the wire; a cancelled request and a closed flow are forgotten and reported.
    pub open spec fn commanded(self, command: Command<R, W>) -> (Self, Seq<Action<R, W>>) {
        match command {
            Command::Authorize { request_id, flow_id, operation, response, revoked } => (
                self.at(
                    Phase::Writing(
                        AfterWrite::Register {
                            request_id,
                            pending: PendingAuthorization { flow_id, response, revoked },
                        },
                    ),
                ),
                seq![
                    Action::Write(
                        RuntimeMessage::AuthorizationRequest { request_id, flow_id, operation },
                    ),
                ],
            ),
            Command::Cancel { request_id, flow_id } => (
                SessionView {
                    phase: Phase::Writing(AfterWrite::Nothing),
                    pending: self.pending.remove(request_id),
                    flows: self.flows.remove(flow_id),
                },
                seq![Action::Write(RuntimeMessage::FlowClosed { flow_id })],
            ),
            Command::CloseFlow { flow_id } => (
                SessionView {
                    phase: Phase::Writing(AfterWrite::Nothing),
                    pending: self.pending,
                    flows: self.flows.remove(flow_id),
                },
                seq![Action::Write(RuntimeMessage::FlowClosed { flow_id })],
            ),
        }
    }

    /// What a session does once a command's message is on the wire.
    pub open spec fn written(self, after: AfterWrite<R, W>) -> Self {
        match after {
            AfterWrite::Register { request_id, pending } => SessionView {
                phase: Phase::Ready,
                pending: self.pending.insert(request_id, pending),
                flows: self.flows,
            },
            AfterWrite::Nothing => self.at(Phase::Ready),
        }
    }

    /// What a session does with a message of the controller.
    pub open spec fn told(self, message: ControllerMessage) -> (Self, Seq<Action<R, W>>) {
        match message {
            ControllerMessage::AuthorizationDecision { request_id, decision } => {
                if self.pending.contains_key(request_id) {
                    let request = self.pending[request_id];
                    (
                        SessionView {
                            phase: self.phase,
                            pending: self.pending.remove(request_id),
                            flows: if decision == AuthorizationDecision::Allow {
                                self.flows.insert(request.flow_id, request.revoked)
                            } else {
                                self.flows
                            },
                        },
                        seq![Action::Respond { response: request.response, decision }],
                    )
                } else {
                    (self, Seq::empty())
                }
            },
            ControllerMessage::Revoke { flow_id } => {
                if self.flows.contains_key(flow_id) {
                    (
                        SessionView {
                            phase: self.phase,
                            pending: self.pending,
                            flows: self.flows.remove(flow_id),
                        },
                        seq![Action::Revoke { revoked: self.flows[flow_id] }],
                    )
                } else {
                    (self, Seq::empty())
                }
            },
            ControllerMessage::HelloAccepted { .. } => (self, Seq::empty()),
        }
    }

    /// The actions that end a connection: it is dropped, then the request that was being
    /// written, if there is one, and every waiting request is abandoned, and then every live flow
    /// is revoked, each once, the waiting requests and the flows in no particular order.
    pub open spec fn torn_down(self, actions: Seq<Action<R, W>>) -> bool {
        exists|requests: Seq<u64>, flows: Seq<u64>|
            {
                &&& #[trigger] enumerates(requests, self.pending.dom())
                &&& #[trigger] enumerates(flows, self.flows.dom())
                &&& actions == seq![Action::Close] + unwritten(self.phase) + abandonments(
                    self.pending,
                    requests,
                ) + revocations(self.flows, flows)
            }
    }

    /// The states and actions that an event may lead to.
    pub open spec fn leads_to(
        self,
        event: Event<R, W>,
        next: Self,
        actions: Seq<Action<R, W>>,
    ) -> bool {
        match (self.phase, event) {
            (Phase::Idle, Event::Issued(command)) => {
                &&& next == self.at(Phase::Connecting(command))
                &&& actions == seq![Action::<R, W>::Connect]
            },
            (Phase::Connecting(command), Event::Connected) => (next, actions) == self.commanded(
                command,
            ),
            (Phase::Connecting(command), Event::ConnectFailed) => {
                &&& next == self.at(Phase::Idle)
                &&& actions == abandoned(command)
            },
            (Phase::Ready, Event::Issued(command)) => (next, actions) == self.commanded(command),
            (Phase::Ready, Event::Received(message)) => (next, actions) == self.told(message),
            (Phase::Writing(after), Event::Written) => {
                &&& next == self.written(after)
                &&& actions == Seq::<Action<R, W>>::empty()
            },
            (_, Event::CommandsClosed) => {
                &&& next == SessionView::<R, W>::empty(Phase::Stopped)
                &&& self.torn_down(actions)
            },
            _ => {
                &&& next == SessionView::<R, W>::empty(Phase::Idle)
                &&& self.torn_down(actions)
            },
        }
    }
}

/// `keys` lists a set, each element once.
pub open spec fn enumerates(keys: Seq<u64>, set: Set<u64>) -> bool {
    keys.no_duplicates() && keys.to_set() == set
}

/// The abandonment of a request that is being written.
pub open spec fn unwritten<R, W>(phase: Phase<R, W>) -> Seq<Action<R, W>> {
    match phase {
        Phase::Writing(AfterWrite::Register { pending, .. }) => seq![
            Action::Abandon { response: pending.response },
        ],
        _ => Seq::empty(),
    }
}

/// The abandonment of each listed request.
pub open spec fn abandonments<R, W>(
    pending: Map<u64, PendingAuthorization<R, W>>,
    requests: Seq<u64>,
) -> Seq<Action<R, W>> {
    Seq::new(
        requests.len(),
        |i: int| Action::Abandon { response: pending[requests[i]].response },
    )
}

/// The revocation of each listed flow.
pub open spec fn revocations<R, W>(live: Map<u64, W>, flows: Seq<u64>) -> Seq<Action<R, W>> {
    Seq::new(flows.len(), |i: int| Action::Revoke { revoked: live[flows[i]] })
}

/// What becomes of a command that no connection could be had for.
pub open spec fn abandoned<R, W>(command: Command<R, W>) -> Seq<Action<R, W>> {
    match command {
        Command::Authorize { response, .. } => seq![Action::Abandon { response }],
        _ => Seq::empty(),
    }
}

/// The keys of a table, each once.
fn table_keys<V>(table: &HashMap<u64, V>) -> (keys: Vec<u64>)
    ensures
        enumerates(keys@, table@.dom()),
{
    let mut keys: Vec<u64> = Vec::new();
    for key in iter: table.keys()
        invariant
            keys@ == iter.seq().unref().take(iter.index()),
    {
        keys.push(*key);
    }
    proof {
        let listed = vstd::std_specs::iter::IteratorSpec::remaining(
            &vstd::std_specs::hash::spec_keys_iter(table),
        );
        assert(keys@ =~= listed.unref());
    }
    keys
}

/// What a session waits for.
#[derive(Clone, Copy, Debug, PartialEq, Eq, Structural)]
pub enum Awaited {
    /// A command, or the end of commands.
    Command,
    /// The outcome of a connection attempt.
    Connection,
    /// A command, the end of commands, a controller message or the end of the stream.
    CommandOrMessage,
    /// The outcome of a write.
    Write,
    /// Nothing: the session is over.
    Nothing,
}

/// The actions for a command that no connection could be had for.
pub fn abandon_command<R, W>(command: Command<R, W>) -> (actions: Vec<Action<R, W>>)
    ensures
        actions@ == abandoned(command),
{
    let mut actions: Vec<Action<R, W>> = Vec::new();
    if let Command::Authorize { response, .. } = command {
        actions.push(Action::Abandon { response });
        assert(actions@ =~= abandoned(command));
    } else {
        assert(actions@ =~= abandoned(command));
    }
    actions
}

impl<R, W> Session<R, W> {
    /// The actions write the request with this operation, and do nothing else.
    pub open spec fn request_written(
        actions: Seq<Action<R, W>>,
        request_id: u64,
        flow_id: u64,
        operation: NetworkOperation,
    ) -> bool {
        actions == seq![
            Action::<R, W>::Write(
                RuntimeMessage::AuthorizationRequest { request_id, flow_id, operation },
            ),
        ]
    }

    /// A session that has no connection yet.
    pub fn new() -> (session: Self)
        ensures
            session@ == SessionView::<R, W>::empty(Phase::Idle),
            session@.wf(),
    {
        Session { phase: Phase::Idle, pending: HashMap::new(), flows: HashMap::new() }
    }

    /// What the session waits for next.
    pub fn awaits(&self) -> (awaited: Awaited)
        ensures
            awaited == match self@.phase {
                Phase::Idle => Awaited::Command,
                Phase::Connecting(_) => Awaited::Connection,
                Phase::Ready => Awaited::CommandOrMessage,
                Phase::Writing(_) => Awaited::Write,
                Phase::Stopped => Awaited::Nothing,
            },
    {
        match &self.phase {
            Phase::Idle => Awaited::Command,
            Phase::Connecting(_) => Awaited::Connection,
            Phase::Ready => Awaited::CommandOrMessage,
            Phase::Writing(_) => Awaited::Write,
            Phase::Stopped => Awaited::Nothing,
        }
    }

    /// Takes an event in, and says what is to be done about it.
    pub fn step(self, event: Event<R, W>) -> (out: (Self, Vec<Action<R, W>>))
        requires
            self@.wf(),
            self@.expects(event),
        ensures
            out.0@.wf(),
            self@.leads_to(event, out.0@, out.1@),
    {
        let ghost before = self@;
        let Session { phase, pending, flows } = self;
        assert(before == SessionView::of(phase, pending@, flows@));
        match (phase, event) {
            (Phase::Idle, Event::Issued(command)) => {
                let mut actions: Vec<Action<R, W>> = Vec::new();
                actions.push(Action::Connect);
                assert(actions@ =~= seq![Action::<R, W>::Connect]);
                (Session { phase: Phase::Connecting(command), pending, flows }, actions)
            },
            (Phase::Connecting(command), Event::Connected) => {
                let out: (Self, Vec<Action<R, W>>) = Self::handle_command(command, pending, flows);
                assert((out.0@, out.1@) == before.commanded(command));
                out
            },
            (Phase::Connecting(command), Event::ConnectFailed) => {
                (Session { phase: Phase::Idle, pending, flows }, abandon_command(command))
            },
            (Phase::Ready, Event::Issued(command)) => {
                let out: (Self, Vec<Action<R, W>>) = Self::handle_command(command, pending, flows);
                assert((out.0@, out.1@) == before.commanded(command));
                out
            },
            (Phase::Ready, Event::Received(message)) => Self::handle_controller_message(
                message,
                pending,
                flows,
            ),
            (Phase::Writing(after), Event::Written) => {
                let mut pending: HashMap<u64, PendingAuthorization<R, W>> = pending;
                match after {
                    AfterWrite::Register { request_id, pending: request } => {
                        pending.insert(request_id, request);
                    },
                    AfterWrite::Nothing => {},
                }
                (Session { phase: Phase::Ready, pending, flows }, Vec::new())
            },
            (phase, Event::CommandsClosed) => {
                let actions: Vec<Action<R, W>> = Self::disconnect(phase, pending, flows);
                (
                    Session { phase: Phase::Stopped, pending: HashMap::new(), flows: HashMap::new() },
                    actions,
                )
            },
            (phase, _) => {
                let actions: Vec<Action<R, W>> = Self::disconnect(phase, pending, flows);
                (
                    Session { phase: Phase::Idle, pending: HashMap::new(), flows: HashMap::new() },
                    actions,
                )
            },
        }
    }

    /// Starts a command on a live connection.
    fn handle_command(
        command: Command<R, W>,
        pending: HashMap<u64, PendingAuthorization<R, W>>,
        flows: HashMap<u64, W>,
    ) -> (out: (Self, Vec<Action<R, W>>))
        ensures
            forall|phase: Phase<R, W>|
                (out.0@, out.1@) == #[trigger] SessionView::of(phase, pending@, flows@).commanded(
                    command,
                ),
    {
        let mut pending: HashMap<u64, PendingAuthorization<R, W>> = pending;
        let mut flows: HashMap<u64, W> = flows;
        let mut actions: Vec<Action<R, W>> = Vec::new();
        match command {
            Command::Authorize { request_id, flow_id, operation, response, revoked } => {
                actions.push(
                    Action::Write(
                        RuntimeMessage::AuthorizationRequest { request_id, flow_id, operation },
                    ),
                );
                let after: AfterWrite<R, W> = AfterWrite::Register {
                    request_id,
                    pending: PendingAuthorization { flow_id, response, revoked },
                };
                (Session { phase: Phase::Writing(after), pending, flows }, actions)
            },
            Command::Cancel { request_id, flow_id } => {
                pending.remove(&request_id);
                flows.remove(&flow_id);
                actions.push(Action::Write(RuntimeMessage::FlowClosed { flow_id }));
                (Session { phase: Phase::Writing(AfterWrite::Nothing), pending, flows }, actions)
            },
            Command::CloseFlow { flow_id } => {
                flows.remove(&flow_id);
                actions.push(Action::Write(RuntimeMessage::FlowClosed { flow_id }));
                (Session { phase: Phase::Writing(AfterWrite::Nothing), pending, flows }, actions)
            },
        }
    }

    /// Takes in a message of the controller on a live connection that has these requests and
    /// flows.
    pub fn handle_controller_message(
        message: ControllerMessage,
        pending: HashMap<u64, PendingAuthorization<R, W>>,
        flows: HashMap<u64, W>,
    ) -> (out: (Self, Vec<Action<R, W>>))
        ensures
            (out.0@, out.1@) == SessionView::of(Phase::Ready, pending@, flows@).told(message),
            out.0@.wf(),
    {
        let ghost tables = SessionView::<R, W>::of(Phase::Ready, pending@, flows@);
        let mut pending: HashMap<u64, PendingAuthorization<R, W>> = pending;
        let mut flows: HashMap<u64, W> = flows;
        let mut actions: Vec<Action<R, W>> = Vec::new();
        match message {
            ControllerMessage::AuthorizationDecision { request_id, decision } => {
                if let Some(request) = pending.remove(&request_id) {
                    if decision == AuthorizationDecision::Allow {
                        flows.insert(request.flow_id, request.revoked);
                    }
                    actions.push(Action::Respond { response: request.response, decision });
                } else {
                    assert(pending@ =~= tables.pending);
                }
            },
            ControllerMessage::Revoke { flow_id } => {
                if let Some(revoked) = flows.remove(&flow_id) {
                    actions.push(Action::Revoke { revoked });
                } else {
                    assert(flows@ =~= tables.flows);
                }
            },
            ControllerMessage::HelloAccepted { .. } => {},
        }
        assert(actions@ =~= tables.told(message).1);
        (Session { phase: Phase::Ready, pending, flows }, actions)
    }

    /// Drops the connection, abandons every request that has no decision and revokes every live
    /// flow.
    fn disconnect(
        phase: Phase<R, W>,
        pending: HashMap<u64, PendingAuthorization<R, W>>,
        flows: HashMap<u64, W>,
    ) -> (actions: Vec<Action<R, W>>)
        ensures
            SessionView::of(phase, pending@, flows@).torn_down(actions@),
    {
        let requests: Vec<u64> = table_keys(&pending);
        let live: Vec<u64> = table_keys(&flows);
        let ghost tables = SessionView::<R, W>::of(phase, pending@, flows@);
        let ghost waiting = pending@;
        let ghost revocable = flows@;
        let mut pending: HashMap<u64, PendingAuthorization<R, W>> = pending;
        let mut flows: HashMap<u64, W> = flows;
        let mut actions: Vec<Action<R, W>> = Vec::new();
        actions.push(Action::Close);
        if let Phase::Writing(AfterWrite::Register { pending: request, .. }) = phase {
            actions.push(Action::Abandon { response: request.response });
        }
        let ghost head = seq![Action::<R, W>::Close] + unwritten(tables.phase);
        assert(actions@ =~= head + abandonments(waiting, requests@.take(0)));
        for i in 0..requests.len()
            invariant
                enumerates(requests@, waiting.dom()),
                actions@ == head + abandonments(waiting, requests@.take(i as int)),
                forall|j: int|
                    i <= j < requests@.len() ==> {
                        &&& #[trigger] pending@.contains_key(requests@[j])
                        &&& pending@[requests@[j]] == waiting[requests@[j]]
                    },
        {
            let ghost rest = pending@;
            assert(rest.contains_key(requests@[i as int]));
            if let Some(request) = pending.remove(&requests[i]) {
                actions.push(Action::Abandon { response: request.response });
            }
            assert(actions@ =~= head + abandonments(waiting, requests@.take(i + 1)));
            assert(pending@ == rest.remove(requests@[i as int]));
            assert forall|j: int| i < j < requests@.len() implies {
                &&& #[trigger] pending@.contains_key(requests@[j])
                &&& pending@[requests@[j]] == waiting[requests@[j]]
            } by {
                assert(requests@[j] != requests@[i as int]);
                assert(rest.contains_key(requests@[j]));
            }
        }
        let ghost abandoned_all = actions@;
        assert(requests@.take(requests@.len() as int) =~= requests@);
        assert(actions@ =~= abandoned_all + revocations(revocable, live@.take(0)));
        for i in 0..live.len()
            invariant
                enumerates(live@, revocable.dom()),
                actions@ == abandoned_all + revocations(revocable, live@.take(i as int)),
                forall|j: int|
                    i <= j < live@.len() ==> {
                        &&& #[trigger] flows@.contains_key(live@[j])
                        &&& flows@[live@[j]] == revocable[live@[j]]
                    },
        {
            let ghost rest = flows@;
            assert(rest.contains_key(live@[i as int]));
            if let Some(revoked) = flows.remove(&live[i]) {
                actions.push(Action::Revoke { revoked });
            }
            assert(actions@ =~= abandoned_all + revocations(revocable, live@.take(i + 1)));
            assert(flows@ == rest.remove(live@[i as int]));
            assert forall|j: int| i < j < live@.len() implies {
                &&& #[trigger] flows@.contains_key(live@[j])
                &&& flows@[live@[j]] == revocable[live@[j]]
            } by {
                assert(live@[j] != live@[i as int]);
                assert(rest.contains_key(live@[j]));
            }
        }
        assert(live@.take(live@.len() as int) =~= live@);
        assert(enumerates(requests@, tables.pending.dom()));
        assert(enumerates(live@, tables.flows.dom()));
        assert(actions@ == seq![Action::Close] + unwritten(tables.phase) + abandonments(
            tables.pending,
            requests@,
        ) + revocations(tables.flows, live@));
        actions
    }
}

/// The lists that a teardown goes by, with where each kind of action stands in it.
proof fn teardown_lists<R, W>(session: SessionView<R, W>, actions: Seq<Action<R, W>>) -> (lists: (
    Seq<u64>,
    Seq<u64>,
))
    requires
        session.torn_down(actions),
    ensures
        enumerates(lists.0, session.pending.dom()),
        enumerates(lists.1, session.flows.dom()),
        actions.len() == 1 + unwritten(session.phase).len() + lists.0.len() + lists.1.len(),
        actions[0] is Close,
        forall|i: int|
            0 <= i < unwritten(session.phase).len() ==> actions[1 + i] == #[trigger] unwritten(
                session.phase,
            )[i],
        forall|i: int|
            #![trigger lists.0[i]]
            0 <= i < lists.0.len() ==> actions[1 + unwritten(session.phase).len() + i]
                == (Action::<R, W>::Abandon { response: session.pending[lists.0[i]].response }),
        forall|i: int|
            #![trigger lists.1[i]]
            0 <= i < lists.1.len() ==> actions[1 + unwritten(session.phase).len() + lists.0.len()
                + i] == (Action::<R, W>::Revoke { revoked: session.flows[lists.1[i]] }),
        forall|i: int|
            0 <= i < actions.len() ==> {
                ||| #[trigger] actions[i] is Close
                ||| actions[i] is Abandon
                ||| actions[i] matches Action::Revoke { revoked } && exists|flow_id: u64|
                    #[trigger] session.flows.contains_key(flow_id) && session.flows[flow_id]
                        == revoked
            },
{
    let (requests, flows) = choose|requests: Seq<u64>, flows: Seq<u64>|
        {
            &&& #[trigger] enumerates(requests, session.pending.dom())
            &&& #[trigger] enumerates(flows, session.flows.dom())
            &&& actions == seq![Action::Close] + unwritten(session.phase) + abandonments(
                session.pending,
                requests,
            ) + revocations(session.flows, flows)
        };
    let first = unwritten(session.phase);
    let second = abandonments::<R, W>(session.pending, requests);
    let third = revocations::<R, W>(session.flows, flows);
    assert forall|i: int| 0 <= i < actions.len() implies {
        ||| #[trigger] actions[i] is Close
        ||| actions[i] is Abandon
        ||| actions[i] matches Action::Revoke { revoked } && exists|flow_id: u64|
            #[trigger] session.flows.contains_key(flow_id) && session.flows[flow_id] == revoked
    } by {
        if i == 0 {
        } else if i < 1 + first.len() {
            assert(actions[i] == first[i - 1]);
        } else if i < 1 + first.len() + second.len() {
            assert(actions[i] == second[i - 1 - first.len()]);
        } else {
            let k = i - 1 - first.len() - second.len();
            assert(actions[i] == third[k]);
            assert(flows.to_set().contains(flows[k]));
            assert(session.flows.contains_key(flows[k]));
        }
    }
    (requests, flows)
}

/// Every answer is a decision of the host on the request that waits for it.
pub proof fn only_the_host_decides<R, W>(
    session: SessionView<R, W>,
    event: Event<R, W>,
    next: SessionView<R, W>,
    actions: Seq<Action<R, W>>,
    i: int,
)
    requires
        session.leads_to(event, next, actions),
        0 <= i < actions.len(),
        actions[i] is Respond,
    ensures
        event matches Event::Received(
            ControllerMessage::AuthorizationDecision { request_id, decision },
        ) && {
            &&& session.phase is Ready
            &&& session.pending.contains_key(request_id)
            &&& actions[i] == (Action::<R, W>::Respond {
                response: session.pending[request_id].response,
                decision,
            })
        },
{
    match (session.phase, event) {
        (Phase::Idle, Event::Issued(_)) => {},
        (Phase::Connecting(_), Event::Connected) => {},
        (Phase::Connecting(_), Event::ConnectFailed) => {},
        (Phase::Ready, Event::Issued(_)) => {},
        (Phase::Ready, Event::Received(_)) => {},
        (Phase::Writing(_), Event::Written) => {},
        _ => {
            let _ = teardown_lists(session, actions);
            assert(actions[i] !is Respond);
        },
    }
}

/// Access is only ever granted by the host: a positive answer goes out only when the
/// controller allowed the request that waits for it, and that request's flow is live from
/// then on.
pub proof fn only_the_host_allows<R, W>(
    session: SessionView<R, W>,
    event: Event<R, W>,
    next: SessionView<R, W>,
    actions: Seq<Action<R, W>>,
    i: int,
)
    requires
        session.leads_to(event, next, actions),
        0 <= i < actions.len(),
        actions[i] matches Action::Respond { decision, .. } && decision
            == AuthorizationDecision::Allow,
    ensures
        event matches Event::Received(
            ControllerMessage::AuthorizationDecision { request_id, decision },
        ) && {
            &&& session.phase is Ready
            &&& decision == AuthorizationDecision::Allow
            &&& session.pending.contains_key(request_id)
            &&& actions[i]->Respond_response == session.pending[request_id].response
            &&& next.flows.contains_key(session.pending[request_id].flow_id)
            &&& next.flows[session.pending[request_id].flow_id]
                == session.pending[request_id].revoked
        },
{
    only_the_host_decides(session, event, next, actions, i);
}

/// A denial is the host's too: a negative answer goes out only when the controller denied the
/// request that waits for it, never because the transport failed.
pub proof fn denials_were_decided<R, W>(
    session: SessionView<R, W>,
    event: Event<R, W>,
    next: SessionView<R, W>,
    actions: Seq<Action<R, W>>,
    i: int,
)
    requires
        session.leads_to(event, next, actions),
        0 <= i < actions.len(),
        actions[i] matches Action::Respond { decision, .. } && decision
            == AuthorizationDecision::Deny,
    ensures
        event matches Event::Received(
            ControllerMessage::AuthorizationDecision { request_id, decision },
        ) && {
            &&& decision == AuthorizationDecision::Deny
            &&& session.pending.contains_key(request_id)
            &&& actions[i]->Respond_response == session.pending[request_id].response
        },
{
    only_the_host_decides(session, event, next, actions, i);
}

/// Losing the connection, or the network engine, fails closed: every request without a decision
/// is abandoned, every live flow is revoked, nothing is answered, and nothing stays behind.
pub proof fn teardown_leaves_nothing<R, W>(
    session: SessionView<R, W>,
    event: Event<R, W>,
    next: SessionView<R, W>,
    actions: Seq<Action<R, W>>,
)
    requires
        session.expects(event),
        session.leads_to(event, next, actions),
        event is CommandsClosed || event is WriteFailed || event is StreamEnded,
    ensures
        next.pending == Map::<u64, PendingAuthorization<R, W>>::empty(),
        next.flows == Map::<u64, W>::empty(),
        actions.len() == 1 + unwritten(session.phase).len() + session.pending.len()
            + session.flows.len(),
        actions[0] is Close,
        forall|i: int| 0 <= i < actions.len() ==> #[trigger] actions[i] !is Respond,
        session.phase matches Phase::Writing(AfterWrite::Register { pending, .. })
            ==> actions.contains(Action::Abandon { response: pending.response }),
        forall|request_id: u64| #[trigger]
            session.pending.contains_key(request_id) ==> actions.contains(
                Action::Abandon { response: session.pending[request_id].response },
            ),
        forall|flow_id: u64| #[trigger]
            session.flows.contains_key(flow_id) ==> actions.contains(
                Action::Revoke { revoked: session.flows[flow_id] },
            ),
{
    let (requests, flows) = teardown_lists(session, actions);
    requests.unique_seq_to_set();
    flows.unique_seq_to_set();
    let first = unwritten(session.phase);
    if session.phase matches Phase::Writing(AfterWrite::Register { pending, .. }) {
        assert(actions[1] == first[0]);
    }
    assert forall|request_id: u64| #[trigger]
        session.pending.contains_key(request_id) implies actions.contains(
        Action::Abandon { response: session.pending[request_id].response },
    ) by {
        assert(requests.to_set().contains(request_id));
        let k = requests.index_of(request_id);
        assert(requests[k] == request_id);
        assert(actions[1 + first.len() + k] is Abandon);
    }
    assert forall|flow_id: u64| #[trigger] session.flows.contains_key(flow_id) implies actions.contains(
        Action::Revoke { revoked: session.flows[flow_id] },
    ) by {
        assert(flows.to_set().contains(flow_id));
        let k = flows.index_of(flow_id);
        assert(flows[k] == flow_id);
        assert(actions[1 + first.len() + requests.len() + k] is Revoke);
    }
}

/// A teardown abandons requests first and revokes flows after that, and does nothing else.
pub proof fn teardowns_are_ordered<R, W>(
    session: SessionView<R, W>,
    event: Event<R, W>,
    next: SessionView<R, W>,
    actions: Seq<Action<R, W>>,
)
    requires
        session.expects(event),
        session.leads_to(event, next, actions),
        event is CommandsClosed || event is WriteFailed || event is StreamEnded,
    ensures
        forall|i: int|
            1 <= i <= unwritten(session.phase).len() + session.pending.len()
                ==> #[trigger] actions[i] is Abandon,
        forall|i: int|
            unwritten(session.phase).len() + session.pending.len() < i < actions.len()
                ==> #[trigger] actions[i] is Revoke,
{
    let (requests, flows) = teardown_lists(session, actions);
    requests.unique_seq_to_set();
    flows.unique_seq_to_set();
    let first = unwritten(session.phase).len() as int;
    assert forall|i: int| 1 <= i <= first + session.pending.len() implies #[trigger]
        actions[i] is Abandon by {
        if i <= first {
            assert(actions[i] == unwritten(session.phase)[i - 1]);
        } else {
            let request = requests[i - 1 - first];
            assert(actions[i] == (Action::<R, W>::Abandon {
                response: session.pending[request].response,
            }));
        }
    }
    assert forall|i: int| first + session.pending.len() < i < actions.len() implies #[trigger]
        actions[i] is Revoke by {
        let flow = flows[i - 1 - first - requests.len()];
        assert(actions[i] == (Action::<R, W>::Revoke { revoked: session.flows[flow] }));
    }
}

/// A failed connection decides nothing: the request that it was for is abandoned, and nothing
/// else happens.
pub proof fn failed_connections_decide_nothing<R, W>(
    session: SessionView<R, W>,
    request_id: u64,
    flow_id: u64,
    operation: NetworkOperation,
    response: R,
    revoked: W,
    next: SessionView<R, W>,
    actions: Seq<Action<R, W>>,
)
    requires
        session.phase == Phase::Connecting(
            Command::Authorize { request_id, flow_id, operation, response, revoked },
        ),
        session.leads_to(Event::ConnectFailed, next, actions),
    ensures
        actions == seq![Action::<R, W>::Abandon { response }],
        next == session.at(Phase::Idle),
{
}

/// A revocation goes out only when the host revoked a flow that is live under this handle, or
/// when the connection or the network engine is lost.
pub proof fn revocations_have_a_cause<R, W>(
    session: SessionView<R, W>,
    event: Event<R, W>,
    next: SessionView<R, W>,
    actions: Seq<Action<R, W>>,
    i: int,
)
    requires
        session.expects(event),
        session.leads_to(event, next, actions),
        0 <= i < actions.len(),
        actions[i] is Revoke,
    ensures
        exists|flow_id: u64|
            {
                &&& #[trigger] session.flows.contains_key(flow_id)
                &&& session.flows[flow_id] == actions[i]->revoked
                &&& {
                    ||| event == Event::<R, W>::Received(ControllerMessage::Revoke { flow_id })
                    ||| event is WriteFailed
                    ||| event is StreamEnded
                    ||| event is CommandsClosed
                }
            },
{
    match (session.phase, event) {
        (Phase::Idle, Event::Issued(_)) => {},
        (Phase::Connecting(_), Event::Connected) => {},
        (Phase::Connecting(_), Event::ConnectFailed) => {},
        (Phase::Ready, Event::Issued(_)) => {},
        (Phase::Ready, Event::Received(ControllerMessage::Revoke { flow_id })) => {
            assert(session.flows.contains_key(flow_id));
        },
        (Phase::Ready, Event::Received(_)) => {},
        (Phase::Writing(_), Event::Written) => {},
        _ => {
            let _ = teardown_lists(session, actions);
            assert(actions[i] is Revoke);
        },
    }
}

/// A request is answered once: after a decision on it, another one changes nothing.
pub proof fn decisions_are_final<R, W>(
    session: SessionView<R, W>,
    request_id: u64,
    first: AuthorizationDecision,
    second: AuthorizationDecision,
)
    ensures
        ({
            let after = session.told(
                ControllerMessage::AuthorizationDecision { request_id, decision: first },
            ).0;
            after.told(ControllerMessage::AuthorizationDecision { request_id, decision: second })
                == (after, Seq::<Action<R, W>>::empty())
        }),
{
}

/// A message that comes again changes nothing and signals nobody, whatever it says.
pub proof fn repeated_messages_change_nothing<R, W>(
    session: SessionView<R, W>,
    message: ControllerMessage,
)
    ensures
        session.told(message).0.told(message) == (
            session.told(message).0,
            Seq::<Action<R, W>>::empty(),
        ),
{
}

/// A decision on a request that does not wait, a revocation of a flow that is not live and a
/// handshake message that nobody waits for change nothing and signal nobody.
pub proof fn stray_messages_change_nothing<R, W>(
    session: SessionView<R, W>,
    message: ControllerMessage,
)
    requires
        match message {
            ControllerMessage::AuthorizationDecision { request_id, .. } =>
                !session.pending.contains_key(request_id),
            ControllerMessage::Revoke { flow_id } => !session.flows.contains_key(flow_id),
            ControllerMessage::HelloAccepted { .. } => true,
        },
    ensures
        session.told(message) == (session, Seq::<Action<R, W>>::empty()),
{
}

/// A cancelled request stays refused: once the cancellation is handled, a late decision on
/// the request changes nothing and a late revocation of its flow signals nobody.
pub proof fn cancelled_requests_stay_refused<R, W>(
    session: SessionView<R, W>,
    request_id: u64,
    flow_id: u64,
    decision: AuthorizationDecision,
)
    ensures
        ({
            let after = session.commanded(
                Command::<R, W>::Cancel { request_id, flow_id },
            ).0.written(AfterWrite::Nothing);
            &&& after.told(ControllerMessage::AuthorizationDecision { request_id, decision })
                == (after, Seq::<Action<R, W>>::empty())
            &&& after.told(ControllerMessage::Revoke { flow_id }) == (
                after,
                Seq::<Action<R, W>>::empty(),
            )
        }),
{
}

/// An allowed flow can be revoked, once: the revocation reaches the flow of the request that
/// was allowed, and a second one reaches nobody.
pub proof fn allowed_flows_are_revoked_once<R, W>(session: SessionView<R, W>, request_id: u64)
    requires
        session.pending.contains_key(request_id),
    ensures
        ({
            let request = session.pending[request_id];
            let allowed = session.told(
                ControllerMessage::AuthorizationDecision {
                    request_id,
                    decision: AuthorizationDecision::Allow,
                },
            ).0;
            let (after, actions) = allowed.told(
                ControllerMessage::Revoke { flow_id: request.flow_id },
            );
            &&& actions == seq![Action::<R, W>::Revoke { revoked: request.revoked }]
            &&& after.told(ControllerMessage::Revoke { flow_id: request.flow_id }) == (
                after,
                Seq::<Action<R, W>>::empty(),
            )
        }),
{
}

/// A flow that its owner closed is no longer revoked.
pub proof fn closed_flows_are_not_revoked<R, W>(session: SessionView<R, W>, flow_id: u64)
    ensures
        ({
            let after = session.commanded(Command::<R, W>::CloseFlow { flow_id }).0.written(
                AfterWrite::Nothing,
            );
            after.told(ControllerMessage::Revoke { flow_id }) == (
                after,
                Seq::<Action<R, W>>::empty(),
            )
        }),
{
}

/// A denied request leaves no flow behind.
pub proof fn denied_requests_open_no_flow<R, W>(session: SessionView<R, W>, request_id: u64)
    ensures
        session.told(
            ControllerMessage::AuthorizationDecision {
                request_id,
                decision: AuthorizationDecision::Deny,
            },
        ).0.flows == session.flows,
{
}

/// A request is written as it was issued: under its own numbers and with its own operation.
pub proof fn requests_are_written_as_issued<R, W>(
    session: SessionView<R, W>,
    event: Event<R, W>,
    next: SessionView<R, W>,
    actions: Seq<Action<R, W>>,
    request_id: u64,
    request: PendingAuthorization<R, W>,
)
    requires
        session.expects(event),
        session.leads_to(event, next, actions),
        next.phase == Phase::Writing(AfterWrite::Register { request_id, pending: request }),
    ensures
        exists|operation: NetworkOperation|
            {
                &&& {
                    let command = Command::Authorize {
                        request_id,
                        flow_id: request.flow_id,
                        operation,
                        response: request.response,
                        revoked: request.revoked,
                    };
                    session.phase == Phase::Connecting(command) || (session.phase is Ready && event
                        == Event::Issued(command))
                }
                &&& #[trigger] Session::<R, W>::request_written(
                    actions,
                    request_id,
                    request.flow_id,
                    operation,
                )
            },
{
    let command = match session.phase {
        Phase::Connecting(command) => command,
        _ => event->Issued_0,
    };
    if let Command::Authorize { operation, .. } = command {
        assert(Session::<R, W>::request_written(actions, request_id, request.flow_id, operation));
    }
}

/// A request only waits for the host once it is on the wire: if its message cannot be
/// written, it is abandoned and nobody is answered, and the session no longer holds it.
pub proof fn unwritten_requests_are_forgotten<R, W>(
    session: SessionView<R, W>,
    command: Command<R, W>,
    next: SessionView<R, W>,
    actions: Seq<Action<R, W>>,
)
    requires
        session.commanded(command).0.leads_to(Event::WriteFailed, next, actions),
    ensures
        next == SessionView::<R, W>::empty(Phase::Idle),
        command matches Command::Authorize { response, .. } ==> actions.contains(
            Action::Abandon { response },
        ),
        forall|i: int| 0 <= i < actions.len() ==> #[trigger] actions[i] !is Respond,
{
    let writing = session.commanded(command).0;
    let _ = teardown_lists(writing, actions);
    if command matches Command::Authorize { response, .. } {
        assert(actions[1] == unwritten(writing.phase)[0]);
    }
}

} // verus!
