//! The runtime's session with its host controller, and the host's endpoint.

use std::collections::HashMap;

use sandbox_control::fault::{IoErrorKind, IoFailure};
use sandbox_control::network::client::{
    check_handshake, hello, AuthorizationError, AuthorizationOutcome, NetworkControlClient,
};
use sandbox_control::network::frame::{write_frame, MAX_CONTROL_MESSAGE_LENGTH};
use sandbox_control::network::host::{
    endpoint_parent, replaces_endpoint, ExistingEndpoint, HostAction, HostEndpoint, HostEvent,
    HostPhase,
};
use sandbox_control::network::message::{
    AuthorizationDecision, ControllerMessage, NetworkOperation, RuntimeMessage, SocketAddress,
    TransportProtocol, NETWORK_CONTROL_PROTOCOL,
};
use sandbox_control::network::session::{
    abandon_command, Action, Awaited, Command, Event, PendingAuthorization, Session,
};

type TestSession = Session<&'static str, &'static str>;
type TestAction = Action<&'static str, &'static str>;

fn operation() -> NetworkOperation {
    NetworkOperation::DnsQuery {
        name: "example.com".to_string(),
        record_type: "A".to_string(),
        resolver: Some(SocketAddress::V4 { octets: [192, 0, 2, 53], port: 53 }),
        transport: TransportProtocol::Udp,
    }
}

fn authorize(
    id: u64,
    response: &'static str,
    revoked: &'static str,
) -> Command<&'static str, &'static str> {
    Command::Authorize { request_id: id, flow_id: id, operation: operation(), response, revoked }
}

/// A connected session for which the given requests are on the wire.
fn waiting(requests: Vec<(u64, &'static str, &'static str)>) -> TestSession {
    let mut session: TestSession = Session::new();
    let mut connected = false;
    for (id, response, revoked) in requests {
        let (next, actions) = session.step(Event::Issued(authorize(id, response, revoked)));
        session = next;
        let actions = if connected {
            actions
        } else {
            assert!(matches!(actions[..], [Action::Connect]));
            let (next, actions) = session.step(Event::Connected);
            session = next;
            connected = true;
            actions
        };
        assert!(matches!(
            &actions[..],
            [Action::Write(RuntimeMessage::AuthorizationRequest { request_id, flow_id, .. })]
                if *request_id == id && *flow_id == id
        ));
        let (next, actions) = session.step(Event::Written);
        assert!(actions.is_empty());
        session = next;
    }
    session
}

fn decide(id: u64, decision: AuthorizationDecision) -> Event<&'static str, &'static str> {
    Event::Received(ControllerMessage::AuthorizationDecision { request_id: id, decision })
}

fn revoke(id: u64) -> Event<&'static str, &'static str> {
    Event::Received(ControllerMessage::Revoke { flow_id: id })
}

fn answers(actions: Vec<TestAction>) -> Vec<(&'static str, &'static str)> {
    let mut found: Vec<(&'static str, &'static str)> = Vec::new();
    for action in actions {
        match action {
            Action::Respond { response, decision: AuthorizationDecision::Allow } => {
                found.push((response, "allow"))
            }
            Action::Respond { response, decision: AuthorizationDecision::Deny } => {
                found.push((response, "deny"))
            }
            Action::Abandon { response } => found.push((response, "abandon")),
            Action::Revoke { revoked } => found.push((revoked, "revoke")),
            Action::Close => found.push(("connection", "close")),
            Action::Connect => found.push(("connection", "open")),
            Action::Write(_) => found.push(("connection", "write")),
        }
    }
    found
}

#[test]
fn requests_are_numbered_from_one() {
    let mut client = NetworkControlClient::new();
    for expected in 1..4u64 {
        match client.authorize(operation(), "response", "revoked") {
            Command::Authorize { request_id, flow_id, operation: asked, response, revoked } => {
                assert_eq!((request_id, flow_id), (expected, expected));
                assert_eq!(asked, operation());
                assert_eq!((response, revoked), ("response", "revoked"));
            }
            _ => panic!("an authorization was asked for"),
        }
    }
}

#[test]
fn only_an_explicit_permission_grants() {
    type Conclusion = (
        Result<sandbox_control::network::client::NetworkGrant, AuthorizationError>,
        Option<Command<(), ()>>,
    );
    let (granted, command): Conclusion = NetworkControlClient::conclude(
        4,
        5,
        AuthorizationOutcome::Decided(AuthorizationDecision::Allow),
    );
    let grant = granted.unwrap();
    assert_eq!(grant.flow_id(), 5);
    assert!(command.is_none());
    assert!(matches!(grant.close::<(), ()>(), Command::CloseFlow { flow_id: 5 }));

    let refusals = vec![
        (AuthorizationOutcome::NotQueued, AuthorizationError::Unavailable),
        (
            AuthorizationOutcome::Decided(AuthorizationDecision::Deny),
            AuthorizationError::Denied,
        ),
        (AuthorizationOutcome::Abandoned, AuthorizationError::Unavailable),
        (AuthorizationOutcome::Expired, AuthorizationError::Timeout),
    ];
    for (outcome, expected) in refusals {
        let (granted, command): Conclusion = NetworkControlClient::conclude(4, 5, outcome);
        assert_eq!(granted, Err(expected));
        match outcome {
            AuthorizationOutcome::Expired => {
                assert!(matches!(
                    command,
                    Some(Command::Cancel { request_id: 4, flow_id: 5 })
                ));
            }
            _ => assert!(command.is_none()),
        }
    }
}

#[test]
fn errors_describe_themselves() {
    assert_eq!(AuthorizationError::Unavailable.message(), "Network controller is unavailable");
    assert_eq!(
        AuthorizationError::Timeout.message(),
        "Network controller authorization timed out"
    );
    assert_eq!(AuthorizationError::Denied.message(), "Network controller denied the operation");
}

#[test]
fn the_handshake_accepts_exactly_one_protocol() {
    assert_eq!(
        hello(),
        RuntimeMessage::Hello { protocol: "microsandbox.network-control.v2".to_string() }
    );
    let accepted = ControllerMessage::HelloAccepted {
        protocol: NETWORK_CONTROL_PROTOCOL.to_string(),
    };
    assert!(check_handshake(Some(accepted)).is_ok());

    let other = ControllerMessage::HelloAccepted {
        protocol: "microsandbox.network-control.v1".to_string(),
    };
    let error = check_handshake(Some(other)).unwrap_err();
    assert_eq!(error.kind, IoErrorKind::InvalidData);
    assert_eq!(error.message, "Network controller rejected the protocol handshake");
    let error = check_handshake(Some(ControllerMessage::Revoke { flow_id: 1 })).unwrap_err();
    assert_eq!(error.kind, IoErrorKind::InvalidData);

    let error = check_handshake(None).unwrap_err();
    assert_eq!(error.kind, IoErrorKind::UnexpectedEof);
    assert_eq!(error.message, "Network controller closed during handshake");
}

#[test]
fn a_session_waits_for_what_its_phase_asks_for() {
    let session: TestSession = Session::new();
    assert_eq!(session.awaits(), Awaited::Command);
    let (session, _) = session.step(Event::Issued(authorize(1, "r1", "w1")));
    assert_eq!(session.awaits(), Awaited::Connection);
    let (session, _) = session.step(Event::Connected);
    assert_eq!(session.awaits(), Awaited::Write);
    let (session, _) = session.step(Event::Written);
    assert_eq!(session.awaits(), Awaited::CommandOrMessage);
    let (session, _) = session.step(Event::CommandsClosed);
    assert_eq!(session.awaits(), Awaited::Nothing);
}

#[test]
fn a_request_without_a_connection_is_abandoned() {
    let session: TestSession = Session::new();
    let (session, _) = session.step(Event::Issued(authorize(1, "r1", "w1")));
    let (session, actions) = session.step(Event::ConnectFailed);
    assert_eq!(answers(actions), vec![("r1", "abandon")]);
    let (session, _) = session.step(Event::Issued(Command::CloseFlow { flow_id: 3 }));
    let (session, actions) = session.step(Event::ConnectFailed);
    assert!(actions.is_empty());
    assert_eq!(session.awaits(), Awaited::Command);
    assert_eq!(answers(abandon_command(authorize(1, "r1", "w1"))), vec![("r1", "abandon")]);
    assert!(answers(abandon_command(Command::Cancel { request_id: 1, flow_id: 1 })).is_empty());
}

#[test]
fn decisions_reach_those_who_wait() {
    let session = waiting(vec![(1, "r1", "w1"), (2, "r2", "w2")]);
    let (session, actions) = session.step(decide(2, AuthorizationDecision::Allow));
    assert_eq!(answers(actions), vec![("r2", "allow")]);
    let (session, actions) = session.step(decide(1, AuthorizationDecision::Deny));
    assert_eq!(answers(actions), vec![("r1", "deny")]);
    let (session, actions) = session.step(decide(2, AuthorizationDecision::Deny));
    assert!(actions.is_empty());
    let (session, actions) = session.step(revoke(1));
    assert!(actions.is_empty());
    let (session, actions) = session.step(revoke(2));
    assert_eq!(answers(actions), vec![("w2", "revoke")]);
    let (session, actions) = session.step(revoke(2));
    assert!(actions.is_empty());
    let (session, actions) = session.step(decide(9, AuthorizationDecision::Allow));
    assert!(actions.is_empty());
    let (_, actions) = session.step(Event::Received(ControllerMessage::HelloAccepted {
        protocol: NETWORK_CONTROL_PROTOCOL.to_string(),
    }));
    assert!(actions.is_empty());
}

#[test]
fn a_message_that_comes_again_changes_nothing() {
    type Tables = (
        HashMap<u64, PendingAuthorization<&'static str, &'static str>>,
        HashMap<u64, &'static str>,
    );
    let tables = || -> Tables {
        let request = PendingAuthorization { flow_id: 1, response: "r1", revoked: "w1" };
        (HashMap::from([(1, request)]), HashMap::from([(2, "w2")]))
    };
    let messages = vec![
        (
            ControllerMessage::AuthorizationDecision {
                request_id: 1,
                decision: AuthorizationDecision::Allow,
            },
            vec![("r1", "allow")],
        ),
        (
            ControllerMessage::AuthorizationDecision {
                request_id: 7,
                decision: AuthorizationDecision::Allow,
            },
            vec![],
        ),
        (ControllerMessage::Revoke { flow_id: 2 }, vec![("w2", "revoke")]),
        (ControllerMessage::Revoke { flow_id: 7 }, vec![]),
        (ControllerMessage::HelloAccepted { protocol: "any".to_string() }, vec![]),
    ];
    for (message, expected) in messages {
        let (pending, flows) = tables();
        let (session, actions) =
            TestSession::handle_controller_message(message.clone(), pending, flows);
        assert_eq!(answers(actions), expected);
        assert_eq!(session.awaits(), Awaited::CommandOrMessage);
        let (_, actions) = session.step(Event::Received(message));
        assert!(actions.is_empty());
    }
}

#[test]
fn a_cancelled_request_stays_refused() {
    let session = waiting(vec![(1, "r1", "w1")]);
    let (session, actions) =
        session.step(Event::Issued(Command::Cancel { request_id: 1, flow_id: 1 }));
    assert!(matches!(
        actions[..],
        [Action::Write(RuntimeMessage::FlowClosed { flow_id: 1 })]
    ));
    let (session, _) = session.step(Event::Written);
    let (session, actions) = session.step(decide(1, AuthorizationDecision::Allow));
    assert!(actions.is_empty());
    let (_, actions) = session.step(revoke(1));
    assert!(actions.is_empty());
}

#[test]
fn a_closed_flow_is_not_revoked() {
    let session = waiting(vec![(1, "r1", "w1")]);
    let (session, _) = session.step(decide(1, AuthorizationDecision::Allow));
    let (session, actions) = session.step(Event::Issued(Command::CloseFlow { flow_id: 1 }));
    assert!(matches!(
        actions[..],
        [Action::Write(RuntimeMessage::FlowClosed { flow_id: 1 })]
    ));
    let (session, _) = session.step(Event::Written);
    let (_, actions) = session.step(revoke(1));
    assert!(actions.is_empty());
}

#[test]
fn losing_the_controller_fails_closed() {
    for event in vec![Event::StreamEnded, Event::CommandsClosed] {
        let session = waiting(vec![(1, "r1", "w1"), (2, "r2", "w2"), (3, "r3", "w3")]);
        let (session, _) = session.step(decide(3, AuthorizationDecision::Allow));
        let (session, actions) = session.step(event);
        let mut found = answers(actions);
        assert_eq!(found[0], ("connection", "close"));
        assert_eq!(found[3], ("w3", "revoke"));
        found.sort();
        assert_eq!(
            found,
            vec![
                ("connection", "close"),
                ("r1", "abandon"),
                ("r2", "abandon"),
                ("w3", "revoke"),
            ]
        );
        assert!(matches!(session.awaits(), Awaited::Command | Awaited::Nothing));
    }
}

#[test]
fn a_request_that_cannot_be_written_is_let_go() {
    let session = waiting(vec![(1, "r1", "w1")]);
    let (session, _) = session.step(Event::Issued(authorize(2, "r2", "w2")));
    let (session, actions) = session.step(Event::WriteFailed);
    assert_eq!(
        answers(actions),
        vec![("connection", "close"), ("r2", "abandon"), ("r1", "abandon")]
    );
    assert_eq!(session.awaits(), Awaited::Command);
}

#[test]
fn a_flow_lives_from_its_permission_to_its_end() {
    for end in vec![
        revoke(1),
        Event::Issued(Command::CloseFlow { flow_id: 1 }),
        Event::Issued(Command::Cancel { request_id: 1, flow_id: 1 }),
        Event::StreamEnded,
    ] {
        let session = waiting(vec![(1, "r1", "w1")]);
        let (session, actions) = session.step(revoke(1));
        assert!(actions.is_empty());
        let (session, actions) = session.step(decide(1, AuthorizationDecision::Allow));
        assert_eq!(answers(actions), vec![("r1", "allow")]);
        let (session, _) = session.step(end);
        let session = match session.awaits() {
            Awaited::Write => session.step(Event::Written).0,
            Awaited::Command => {
                let (session, _) = session.step(Event::Issued(authorize(2, "r2", "w2")));
                let (session, _) = session.step(Event::Connected);
                session.step(Event::Written).0
            }
            _ => session,
        };
        let (_, actions) = session.step(revoke(1));
        assert!(actions.is_empty());
    }
}

#[test]
fn a_grant_is_revoked_by_its_own_end_only() {
    let session = waiting(vec![(1, "r1", "w1"), (2, "r2", "w2")]);
    let (session, _) = session.step(decide(1, AuthorizationDecision::Allow));
    let (session, _) = session.step(decide(2, AuthorizationDecision::Allow));
    let (session, actions) = session.step(revoke(2));
    assert_eq!(answers(actions), vec![("w2", "revoke")]);
    let (session, _) = session.step(Event::Issued(authorize(3, "r3", "w3")));
    let (session, _) = session.step(Event::Written);
    let (session, actions) = session.step(decide(3, AuthorizationDecision::Deny));
    assert_eq!(answers(actions), vec![("r3", "deny")]);
    let (_, actions) = session.step(Event::StreamEnded);
    assert_eq!(answers(actions), vec![("connection", "close"), ("w1", "revoke")]);
}

/// Takes an endpoint through some events.
fn after(events: Vec<HostEvent>) -> (HostEndpoint, Vec<HostAction>) {
    let mut host = HostEndpoint::new();
    let mut asked: Vec<HostAction> = Vec::new();
    for event in events {
        let (next, actions) = host.step(event);
        host = next;
        asked.extend(actions);
    }
    (host, asked)
}

fn serving() -> Vec<HostEvent> {
    vec![HostEvent::Accepted]
}

fn forwarding() -> Vec<HostEvent> {
    vec![HostEvent::Accepted, HostEvent::BytesRead(write_frame(b"m").unwrap())]
}

fn writing() -> Vec<HostEvent> {
    vec![HostEvent::Accepted, HostEvent::Outgoing(Some(b"m".to_vec()))]
}

#[test]
fn messages_pass_an_endpoint_in_order() {
    let mut stream = write_frame(b"a").unwrap();
    stream.extend(write_frame(b"bb").unwrap());
    stream.extend(write_frame(b"ccc").unwrap());
    let (host, asked) = after(vec![
        HostEvent::Accepted,
        HostEvent::BytesRead(stream[..3].to_vec()),
        HostEvent::Outgoing(Some(b"x".to_vec())),
        HostEvent::Written,
        HostEvent::BytesRead(stream[3..13].to_vec()),
        HostEvent::Forwarded,
        HostEvent::Forwarded,
        HostEvent::Outgoing(Some(b"y".to_vec())),
        HostEvent::Written,
        HostEvent::BytesRead(stream[13..].to_vec()),
        HostEvent::Forwarded,
        HostEvent::StreamEnded,
        HostEvent::Accepted,
        HostEvent::Outgoing(Some(b"z".to_vec())),
        HostEvent::Written,
        HostEvent::ShutdownRequested,
    ]);
    assert_eq!(host.phase(), HostPhase::Stopped);
    let mut forwarded: Vec<Vec<u8>> = Vec::new();
    let mut written: Vec<Vec<u8>> = Vec::new();
    let mut ended = 0;
    for action in asked {
        match action {
            HostAction::Forward(message) => forwarded.push(message),
            HostAction::Write(frame) => written.push(frame),
            HostAction::EndConnection(reason) => {
                assert!(reason.is_none());
                ended += 1;
            }
            HostAction::Remove => {}
        }
    }
    assert_eq!(forwarded, vec![b"a".to_vec(), b"bb".to_vec(), b"ccc".to_vec()]);
    assert_eq!(
        written,
        vec![
            write_frame(b"x").unwrap(),
            write_frame(b"y").unwrap(),
            write_frame(b"z").unwrap(),
        ]
    );
    assert_eq!(ended, 2);
}

#[test]
fn an_endpoint_passes_messages_on() {
    let (host, actions) = HostEndpoint::new().step(HostEvent::Accepted);
    assert_eq!(host.phase(), HostPhase::Serving);
    assert!(actions.is_empty());

    let frame = write_frame(b"from runtime").unwrap();
    let (host, actions) = host.step(HostEvent::BytesRead(frame[..9].to_vec()));
    assert_eq!(host.phase(), HostPhase::Serving);
    assert!(actions.is_empty());
    let (host, actions) = host.step(HostEvent::BytesRead(frame[9..].to_vec()));
    assert_eq!(host.phase(), HostPhase::Forwarding);
    assert!(matches!(&actions[..], [HostAction::Forward(message)] if message == b"from runtime"));
    let (host, _) = host.step(HostEvent::Forwarded);
    assert_eq!(host.phase(), HostPhase::Serving);

    let (host, actions) = host.step(HostEvent::Outgoing(Some(b"to runtime".to_vec())));
    assert_eq!(host.phase(), HostPhase::Writing);
    let expected = write_frame(b"to runtime").unwrap();
    assert!(matches!(&actions[..], [HostAction::Write(frame)] if *frame == expected));
    let (host, _) = host.step(HostEvent::Written);
    assert_eq!(host.phase(), HostPhase::Serving);
}

#[test]
fn an_endpoint_outlives_its_connections() {
    let mut late = write_frame(b"m").unwrap();
    late.extend([0, 1, 0, 1]);
    let ends = vec![
        (serving(), HostEvent::StreamEnded, None),
        (
            vec![HostEvent::Accepted, HostEvent::BytesRead(vec![0, 0, 0, 9, 1])],
            HostEvent::StreamEnded,
            Some((IoErrorKind::UnexpectedEof, "early eof")),
        ),
        (
            serving(),
            HostEvent::ReadFailed(IoFailure::new(IoErrorKind::Other, "reset")),
            Some((IoErrorKind::Other, "reset")),
        ),
        (
            serving(),
            HostEvent::BytesRead(vec![0, 1, 0, 1]),
            Some((IoErrorKind::InvalidData, "Network control message is too large")),
        ),
        (
            vec![HostEvent::Accepted, HostEvent::BytesRead(late)],
            HostEvent::Forwarded,
            Some((IoErrorKind::InvalidData, "Network control message is too large")),
        ),
        (serving(), HostEvent::Outgoing(None), None),
        (
            serving(),
            HostEvent::Outgoing(Some(vec![0; MAX_CONTROL_MESSAGE_LENGTH + 1])),
            Some((IoErrorKind::InvalidData, "Network control message is too large")),
        ),
        (
            forwarding(),
            HostEvent::ForwardFailed,
            Some((IoErrorKind::BrokenPipe, "Network controller stopped")),
        ),
        (
            writing(),
            HostEvent::WriteFailed(IoFailure::new(IoErrorKind::Other, "gone")),
            Some((IoErrorKind::Other, "gone")),
        ),
    ];
    for (events, event, expected) in ends {
        let (host, _) = after(events);
        let (host, actions) = host.step(event);
        assert_eq!(host.phase(), HostPhase::Accepting);
        match &actions[..] {
            [HostAction::EndConnection(reason)] => assert_eq!(
                reason.as_ref().map(|failure| (failure.kind, failure.message.as_str())),
                expected
            ),
            _ => panic!("the connection ends"),
        }
        let (host, _) = host.step(HostEvent::Accepted);
        let (_, actions) = host.step(HostEvent::BytesRead(write_frame(b"next").unwrap()));
        assert!(matches!(&actions[..], [HostAction::Forward(message)] if message == b"next"));
    }
}

#[test]
fn an_endpoint_that_is_dropped_goes_away() {
    let (host, actions) = HostEndpoint::new().step(HostEvent::ShutdownRequested);
    assert_eq!(host.phase(), HostPhase::Stopped);
    assert!(matches!(actions[..], [HostAction::Remove]));
    for events in vec![serving(), forwarding(), writing()] {
        let (host, _) = after(events);
        let (host, actions) = host.step(HostEvent::ShutdownRequested);
        assert_eq!(host.phase(), HostPhase::Stopped);
        assert!(matches!(actions[..], [HostAction::EndConnection(None), HostAction::Remove]));
    }
    let (host, actions) = HostEndpoint::new().step(HostEvent::AcceptFailed);
    assert_eq!(host.phase(), HostPhase::Stopped);
    assert!(matches!(actions[..], [HostAction::Remove]));
}

#[test]
fn only_a_socket_is_replaced() {
    assert_eq!(endpoint_parent(Some("/run")).unwrap(), "/run");
    let error = endpoint_parent::<&str>(None).unwrap_err();
    assert_eq!(error.kind, IoErrorKind::InvalidInput);
    assert_eq!(error.message, "Network control endpoint has no parent directory");

    assert!(replaces_endpoint("/run/net", ExistingEndpoint::Socket).unwrap());
    let error = replaces_endpoint("/run/net", ExistingEndpoint::OtherObject).unwrap_err();
    assert_eq!(error.kind, IoErrorKind::AlreadyExists);
    assert_eq!(
        error.message,
        "refusing to replace non-socket Network control endpoint /run/net"
    );
    let missing = ExistingEndpoint::Failed(IoFailure::new(IoErrorKind::NotFound, "missing"));
    assert!(!replaces_endpoint("/run/net", missing).unwrap());
    let failed = ExistingEndpoint::Failed(IoFailure::new(IoErrorKind::Other, "denied"));
    let error = replaces_endpoint("/run/net", failed).unwrap_err();
    assert_eq!((error.kind, error.message.as_str()), (IoErrorKind::Other, "denied"));
}
