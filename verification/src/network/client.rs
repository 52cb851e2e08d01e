//! The runtime's view of one authorization: how it is asked for and what its outcome means.

use vstd::prelude::*;

use crate::fault::{IoErrorKind, IoFailure, IoFailureView};
use crate::network::message::{
    AuthorizationDecision, ControllerMessage, NetworkOperation, RuntimeMessage,
    NETWORK_CONTROL_PROTOCOL,
};
use crate::network::session::Command;
use crate::text::same_text;

verus! {

/// Number of commands that may wait for the session.
pub const COMMAND_CAPACITY: usize = 256;

/// Seconds after which an undecided request is refused.
pub const AUTHORIZATION_TIMEOUT_SECONDS: u64 = 5;

/// Seconds allowed for a connection and its handshake.
pub const CONNECT_TIMEOUT_SECONDS: u64 = 2;

/// Failure to obtain a positive host authorization result.
#[derive(Clone, Copy, Debug, PartialEq, Eq, Structural)]
pub enum AuthorizationError {
    /// The bounded controller queue could not accept another request, or the connection to the
    /// controller could not be had or was lost before it decided.
    Unavailable,
    /// The controller did not decide before the fail-closed deadline.
    Timeout,
    /// The controller explicitly denied the operation.
    Denied,
}

impl AuthorizationError {
    /// The description shown to people.
    pub fn message(&self) -> (text: String)
        ensures
            text@ == match *self {
                AuthorizationError::Unavailable => "Network controller is unavailable"@,
                AuthorizationError::Timeout => "Network controller authorization timed out"@,
                AuthorizationError::Denied => "Network controller denied the operation"@,
            },
    {
        match self {
            AuthorizationError::Unavailable => "Network controller is unavailable".to_owned(),
            AuthorizationError::Timeout => "Network controller authorization timed out".to_owned(),
            AuthorizationError::Denied => "Network controller denied the operation".to_owned(),
        }
    }
}

/// How the wait for a decision ended.
#[derive(Clone, Copy, Debug, PartialEq, Eq)]
pub enum AuthorizationOutcome {
    /// The bounded queue had no room for the request, or nobody reads it any more.
    NotQueued,
    /// The controller decided.
    Decided(AuthorizationDecision),
    /// The session abandoned the request, because the transport failed or the session is gone.
    Abandoned,
    /// The deadline passed.
    Expired,
}

/// Permission for one live outbound flow.
#[derive(Debug, PartialEq, Eq)]
pub struct NetworkGrant {
    flow_id: u64,
}

impl NetworkGrant {
    /// The flow that is permitted.
    pub closed spec fn flow(self) -> u64 {
        self.flow_id
    }

    /// The flow that is permitted.
    pub fn flow_id(&self) -> (flow_id: u64)
        ensures
            flow_id == self.flow(),
    {
        self.flow_id
    }

    /// The command that gives the permission back.
    pub fn close<R, W>(self) -> (command: Command<R, W>)
        ensures
            command == (Command::<R, W>::CloseFlow { flow_id: self.flow() }),
    {
        Command::CloseFlow { flow_id: self.flow_id }
    }
}

/// The error that an outcome amounts to; only an explicit permission is none.
pub open spec fn refusal(outcome: AuthorizationOutcome) -> Option<AuthorizationError> {
    match outcome {
        AuthorizationOutcome::Decided(AuthorizationDecision::Allow) => None,
        AuthorizationOutcome::Decided(AuthorizationDecision::Deny) => Some(
            AuthorizationError::Denied,
        ),
        AuthorizationOutcome::NotQueued => Some(AuthorizationError::Unavailable),
        AuthorizationOutcome::Abandoned => Some(AuthorizationError::Unavailable),
        AuthorizationOutcome::Expired => Some(AuthorizationError::Timeout),
    }
}

/// Runtime-side client of one sandbox's host controller: it numbers the requests.
#[derive(Debug)]
pub struct NetworkControlClient {
    next_id: u64,
}

impl NetworkControlClient {
    /// The number of the next request.
    pub closed spec fn next(self) -> u64 {
        self.next_id
    }

    /// A client that has asked for nothing yet.
    pub fn new() -> (client: Self)
        ensures
            client.next() == 1,
    {
        NetworkControlClient { next_id: 1 }
    }

    /// The command that asks for permission, under the next number for both the request and
    /// its flow. Numbers start over after the largest one.
    pub fn authorize<R, W>(
        &mut self,
        operation: NetworkOperation,
        response: R,
        revoked: W,
    ) -> (command: Command<R, W>)
        ensures
            command == (Command::Authorize {
                request_id: old(self).next(),
                flow_id: old(self).next(),
                operation,
                response,
                revoked,
            }),
            final(self).next() == following(old(self).next()),
    {
        let request_id: u64 = self.next_id;
        self.next_id = request_id.wrapping_add(1);
        Command::Authorize { request_id, flow_id: request_id, operation, response, revoked }
    }

    /// What the outcome of a request amounts to: a grant of its flow or an error, and the
    /// command that withdraws the request where nobody waits for its decision any more.
    pub fn conclude<R, W>(
        request_id: u64,
        flow_id: u64,
        outcome: AuthorizationOutcome,
    ) -> (out: (Result<NetworkGrant, AuthorizationError>, Option<Command<R, W>>))
        ensures
            match out.0 {
                Ok(grant) => refusal(outcome) is None && grant.flow() == flow_id,
                Err(error) => refusal(outcome) == Some(error),
            },
            out.1 == if outcome is Expired {
                Some(Command::<R, W>::Cancel { request_id, flow_id })
            } else {
                None
            },
    {
        match outcome {
            AuthorizationOutcome::NotQueued => (Err(AuthorizationError::Unavailable), None),
            AuthorizationOutcome::Decided(AuthorizationDecision::Allow) => {
                (Ok(NetworkGrant { flow_id }), None)
            },
            AuthorizationOutcome::Decided(AuthorizationDecision::Deny) => {
                (Err(AuthorizationError::Denied), None)
            },
            AuthorizationOutcome::Abandoned => (Err(AuthorizationError::Unavailable), None),
            AuthorizationOutcome::Expired => {
                (Err(AuthorizationError::Timeout), Some(Command::Cancel { request_id, flow_id }))
            },
        }
    }
}

/// Every outcome but the host's explicit permission is a refusal.
pub proof fn authorization_fails_closed(outcome: AuthorizationOutcome)
    ensures
        refusal(outcome) is None <==> outcome == AuthorizationOutcome::Decided(
            AuthorizationDecision::Allow,
        ),
{
}

/// Each refusal says what happened: a denial is an explicit one, a timeout is a passed deadline,
/// and everything else means that the controller could not be reached.
pub proof fn refusals_say_what_happened(outcome: AuthorizationOutcome)
    ensures
        refusal(outcome) == Some(AuthorizationError::Denied) <==> outcome
            == AuthorizationOutcome::Decided(AuthorizationDecision::Deny),
        refusal(outcome) == Some(AuthorizationError::Timeout) <==> outcome
            == AuthorizationOutcome::Expired,
        refusal(outcome) == Some(AuthorizationError::Unavailable) <==> (outcome
            == AuthorizationOutcome::NotQueued || outcome == AuthorizationOutcome::Abandoned),
{
}

/// The number that follows a number: the next one, or zero after the largest.
pub open spec fn following(id: u64) -> u64 {
    if id == u64::MAX {
        0
    } else {
        (id + 1) as u64
    }
}

/// The number of the request that comes `later` requests after one with number `id`.
pub open spec fn later_id(id: u64, later: nat) -> u64
    decreases later,
{
    if later == 0 {
        id
    } else {
        following(later_id(id, (later - 1) as nat))
    }
}

proof fn later_id_is_modular(id: u64, later: nat)
    ensures
        later_id(id, later) == (id + later) % 0x1_0000_0000_0000_0000,
    decreases later,
{
    if later > 0 {
        later_id_is_modular(id, (later - 1) as nat);
    }
}

/// Requests of one client have different numbers, until as many were made as there are
/// numbers.
pub proof fn request_numbers_differ(id: u64, i: nat, j: nat)
    requires
        i < j,
        j - i < 0x1_0000_0000_0000_0000,
    ensures
        later_id(id, i) != later_id(id, j),
{
    later_id_is_modular(id, i);
    later_id_is_modular(id, j);
}

/// The failure that answers a controller which hangs up during the handshake.
pub open spec fn handshake_closed() -> IoFailureView {
    IoFailureView {
        kind: IoErrorKind::UnexpectedEof,
        message: "Network controller closed during handshake"@,
    }
}

/// The failure that answers a controller which does not accept the protocol.
pub open spec fn handshake_rejected() -> IoFailureView {
    IoFailureView {
        kind: IoErrorKind::InvalidData,
        message: "Network controller rejected the protocol handshake"@,
    }
}

/// The message that opens a connection.
pub fn hello() -> (message: RuntimeMessage)
    ensures
        message matches RuntimeMessage::Hello { protocol } && protocol@
            == NETWORK_CONTROL_PROTOCOL@,
{
    RuntimeMessage::Hello { protocol: NETWORK_CONTROL_PROTOCOL.to_owned() }
}

/// Whether the controller's first message, if it sent one, accepts exactly this protocol.
pub fn check_handshake(reply: Option<ControllerMessage>) -> (accepted: Result<(), IoFailure>)
    ensures
        accepted is Ok <==> (reply matches Some(ControllerMessage::HelloAccepted { protocol })
            && protocol@ == NETWORK_CONTROL_PROTOCOL@),
        accepted matches Err(failure) ==> failure@ == if reply is None {
            handshake_closed()
        } else {
            handshake_rejected()
        },
{
    match reply {
        None => Err(
            IoFailure::new(
                IoErrorKind::UnexpectedEof,
                "Network controller closed during handshake",
            ),
        ),
        Some(ControllerMessage::HelloAccepted { protocol }) => {
            if same_text(protocol.as_str(), NETWORK_CONTROL_PROTOCOL) {
                Ok(())
            } else {
                Err(rejected_handshake())
            }
        },
        Some(_) => Err(rejected_handshake()),
    }
}

fn rejected_handshake() -> (failure: IoFailure)
    ensures
        failure@ == handshake_rejected(),
{
    IoFailure::new(
        IoErrorKind::InvalidData,
        "Network controller rejected the protocol handshake",
    )
}

} // verus!
