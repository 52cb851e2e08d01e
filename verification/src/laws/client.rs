//! The runtime's client: how a request is numbered, what its outcome means, and how a
//! connection is opened.

use vstd::prelude::*;

use crate::fault::{IoErrorKind, IoFailure};
use crate::network::client::{
    check_handshake, hello, AuthorizationError, AuthorizationOutcome, NetworkControlClient,
    NetworkGrant,
};
use crate::network::message::{
    AuthorizationDecision, ControllerMessage, NetworkOperation, RuntimeMessage,
};
use crate::network::session::Command;

verus! {

/// The first request of a client is number one.
pub proof fn requests_start_at_one<R, W>(
    fresh: NetworkControlClient,
    client: &mut NetworkControlClient,
    operation: NetworkOperation,
    response: R,
    revoked: W,
    command: Command<R, W>,
)
    requires
        call_ensures(NetworkControlClient::new, (), fresh),
        *old(client) == fresh,
        call_ensures(
            NetworkControlClient::authorize::<R, W>,
            (client, operation, response, revoked),
            command,
        ),
    ensures
        command matches Command::Authorize { request_id, .. } && request_id == 1,
{
}

/// A request carries what it was asked with, and is numbered like its flow.
pub proof fn requests_carry_what_was_asked<R, W>(
    client: &mut NetworkControlClient,
    operation: NetworkOperation,
    response: R,
    revoked: W,
    command: Command<R, W>,
)
    requires
        call_ensures(
            NetworkControlClient::authorize::<R, W>,
            (client, operation, response, revoked),
            command,
        ),
    ensures
        command matches Command::Authorize {
            request_id,
            flow_id,
            operation: asked,
            response: back,
            revoked: handle,
        } && {
            &&& request_id == flow_id
            &&& asked == operation
            &&& back == response
            &&& handle == revoked
        },
{
}

/// Requests are numbered one after another: the next request has the next number, and number
/// zero after the largest one.
pub proof fn requests_are_numbered_one_after_another<R, W>(
    first: &mut NetworkControlClient,
    second: &mut NetworkControlClient,
    first_operation: NetworkOperation,
    second_operation: NetworkOperation,
    first_response: R,
    second_response: R,
    first_revoked: W,
    second_revoked: W,
    one: Command<R, W>,
    two: Command<R, W>,
)
    requires
        call_ensures(
            NetworkControlClient::authorize::<R, W>,
            (first, first_operation, first_response, first_revoked),
            one,
        ),
        *old(second) == *final(first),
        call_ensures(
            NetworkControlClient::authorize::<R, W>,
            (second, second_operation, second_response, second_revoked),
            two,
        ),
    ensures
        one matches Command::Authorize { request_id: id, .. } && (two matches Command::Authorize {
            request_id: next,
            ..
        } && if id < u64::MAX {
            next == id + 1
        } else {
            next == 0
        }),
{
}

/// Only the host's explicit permission grants, and each refusal says what happened. A request
/// whose deadline has passed is withdrawn, under its own numbers, and no other one is.
pub proof fn outcomes_are_concluded<R, W>(
    request_id: u64,
    flow_id: u64,
    outcome: AuthorizationOutcome,
    granted: Result<NetworkGrant, AuthorizationError>,
    withdrawal: Option<Command<R, W>>,
)
    requires
        call_ensures(
            NetworkControlClient::conclude::<R, W>,
            (request_id, flow_id, outcome),
            (granted, withdrawal),
        ),
    ensures
        granted is Ok <==> outcome == AuthorizationOutcome::Decided(AuthorizationDecision::Allow),
        granted matches Err(AuthorizationError::Denied) <==> outcome
            == AuthorizationOutcome::Decided(AuthorizationDecision::Deny),
        granted matches Err(AuthorizationError::Timeout) <==> outcome
            == AuthorizationOutcome::Expired,
        granted matches Err(AuthorizationError::Unavailable) <==> (outcome
            == AuthorizationOutcome::NotQueued || outcome == AuthorizationOutcome::Abandoned),
        outcome == AuthorizationOutcome::Expired ==> withdrawal == Some(
            Command::<R, W>::Cancel { request_id, flow_id },
        ),
        outcome != AuthorizationOutcome::Expired ==> withdrawal is None,
{
}

/// A grant is for the flow that was asked for: it names that flow, and gives that flow back.
pub proof fn grants_are_for_their_flow<R, W>(
    request_id: u64,
    flow_id: u64,
    outcome: AuthorizationOutcome,
    grant: NetworkGrant,
    withdrawal: Option<Command<R, W>>,
    named: u64,
    closing: Command<R, W>,
)
    requires
        call_ensures(
            NetworkControlClient::conclude::<R, W>,
            (request_id, flow_id, outcome),
            (Ok(grant), withdrawal),
        ),
        call_ensures(NetworkGrant::flow_id, (&grant,), named),
        call_ensures(NetworkGrant::close::<R, W>, (grant,), closing),
    ensures
        named == flow_id,
        closing == (Command::<R, W>::CloseFlow { flow_id }),
{
}

/// Errors describe themselves.
pub proof fn errors_have_their_texts(error: AuthorizationError, text: String)
    requires
        call_ensures(AuthorizationError::message, (&error,), text),
    ensures
        error == AuthorizationError::Unavailable ==> text@ == "Network controller is unavailable"@,
        error == AuthorizationError::Timeout ==> text@
            == "Network controller authorization timed out"@,
        error == AuthorizationError::Denied ==> text@ == "Network controller denied the operation"@,
{
}

/// A connection opens with this protocol's name, and the controller's acceptance of exactly what
/// was said completes the handshake. Everything else fails it: another name or another message
/// is a rejection, and silence is the end of the stream.
pub proof fn handshakes_accept_what_was_said(
    said: RuntimeMessage,
    reply: Option<ControllerMessage>,
    accepted: Result<(), IoFailure>,
)
    requires
        call_ensures(hello, (), said),
        call_ensures(check_handshake, (reply,), accepted),
    ensures
        said matches RuntimeMessage::Hello { protocol } && {
            &&& protocol@ == "microsandbox.network-control.v2"@
            &&& accepted is Ok <==> (reply matches Some(
                ControllerMessage::HelloAccepted { protocol: named },
            ) && named@ == protocol@)
        },
        reply is None ==> (accepted matches Err(failure) && failure.kind
            == IoErrorKind::UnexpectedEof && failure.message@
            == "Network controller closed during handshake"@),
        reply is Some && accepted is Err ==> (accepted matches Err(failure) && failure.kind
            == IoErrorKind::InvalidData && failure.message@
            == "Network controller rejected the protocol handshake"@),
{
}

/// Nothing that a client is asked is out of place.
pub proof fn anything_can_be_asked_of_a_client<R, W>(
    client: &mut NetworkControlClient,
    operation: NetworkOperation,
    response: R,
    revoked: W,
    request_id: u64,
    flow_id: u64,
    outcome: AuthorizationOutcome,
    grant: NetworkGrant,
    error: AuthorizationError,
    reply: Option<ControllerMessage>,
)
    ensures
        call_requires(NetworkControlClient::new, ()),
        call_requires(
            NetworkControlClient::authorize::<R, W>,
            (client, operation, response, revoked),
        ),
        call_requires(NetworkControlClient::conclude::<R, W>, (request_id, flow_id, outcome)),
        call_requires(NetworkGrant::flow_id, (&grant,)),
        call_requires(NetworkGrant::close::<R, W>, (grant,)),
        call_requires(AuthorizationError::message, (&error,)),
        call_requires(hello, ()),
        call_requires(check_handshake, (reply,)),
{
}

/// The limits of a client: how many commands may wait, how long a decision may take, and how
/// long a connection may take.
pub proof fn clients_have_limits()
    ensures
        crate::network::client::COMMAND_CAPACITY == 256,
        crate::network::client::AUTHORIZATION_TIMEOUT_SECONDS == 5,
        crate::network::client::CONNECT_TIMEOUT_SECONDS == 2,
{
}

} // verus!
