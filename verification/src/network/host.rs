//! Decisions of the host-side endpoint of one controlled sandbox runtime.
//!
//! The endpoint serves one connection at a time. Complete messages of the runtime are passed
//! on as they came, however the bytes of the connection are cut up; messages for the runtime
//! are framed and written. Between connections, messages that nobody took are thrown away.

use vstd::prelude::*;

use crate::fault::{IoErrorKind, IoFailure, IoFailureView};
use crate::network::frame::write_frame;
use crate::network::reader::FrameReader;
use crate::text::join2;

verus! {

/// Number of messages that may wait in each direction.
pub const HOST_CHANNEL_CAPACITY: usize = 256;

/// Permission bits of the directory that holds the endpoint.
pub const ENDPOINT_DIRECTORY_MODE: u32 = 0o700;

/// What stands at the endpoint's path before it is bound.
pub enum ExistingEndpoint {
    /// A socket, left behind by an earlier endpoint.
    Socket,
    /// Anything else.
    OtherObject,
    /// The path could not be inspected.
    Failed(IoFailure),
}

/// The failure that answers an endpoint path without a parent directory.
pub open spec fn no_parent() -> IoFailureView {
    IoFailureView {
        kind: IoErrorKind::InvalidInput,
        message: "Network control endpoint has no parent directory"@,
    }
}

/// The failure that answers an endpoint path which something else occupies.
pub open spec fn occupied(endpoint: Seq<char>) -> IoFailureView {
    IoFailureView {
        kind: IoErrorKind::AlreadyExists,
        message: "refusing to replace non-socket Network control endpoint "@ + endpoint,
    }
}

/// The directory that an endpoint is created in.
pub fn endpoint_parent<P>(parent: Option<P>) -> (directory: Result<P, IoFailure>)
    ensures
        match (parent, directory) {
            (Some(expected), Ok(found)) => found == expected,
            (None, Err(failure)) => failure@ == no_parent(),
            _ => false,
        },
{
    match parent {
        Some(directory) => Ok(directory),
        None => Err(
            IoFailure::new(
                IoErrorKind::InvalidInput,
                "Network control endpoint has no parent directory",
            ),
        ),
    }
}

/// Whether what stands at the endpoint's path is to be removed before binding. Only a socket
/// ever is.
pub fn replaces_endpoint(
    endpoint: &str,
    existing: ExistingEndpoint,
) -> (remove: Result<bool, IoFailure>)
    ensures
        match existing {
            ExistingEndpoint::Socket => remove matches Ok(true),
            ExistingEndpoint::OtherObject => remove matches Err(failure) && failure@ == occupied(
                endpoint@,
            ),
            ExistingEndpoint::Failed(failure) => if failure.kind == IoErrorKind::NotFound {
                remove matches Ok(false)
            } else {
                remove matches Err(reported) && reported@ == failure@
            },
        },
{
    match existing {
        ExistingEndpoint::Socket => Ok(true),
        ExistingEndpoint::OtherObject => Err(
            IoFailure {
                kind: IoErrorKind::AlreadyExists,
                message: join2(
                    "refusing to replace non-socket Network control endpoint ",
                    endpoint,
                ),
            },
        ),
        ExistingEndpoint::Failed(failure) => {
            if failure.kind == IoErrorKind::NotFound {
                Ok(false)
            } else {
                Err(failure)
            }
        },
    }
}

/// Where an endpoint stands, and so what it waits for.
#[derive(Clone, Copy, Debug, PartialEq, Eq, Structural)]
pub enum HostPhase {
    /// No connection; a runtime may connect.
    Accepting,
    /// Connected; the next bytes of the runtime or the next message for it decide.
    Serving,
    /// Connected, with a message of the runtime being passed on.
    Forwarding,
    /// Connected, with a message for the runtime being written.
    Writing,
    /// The endpoint is gone.
    Stopped,
}

/// What can happen to an endpoint.
pub enum HostEvent {
    /// A runtime connected.
    Accepted,
    /// No more connections can be had.
    AcceptFailed,
    /// The owner dropped its receiver.
    ShutdownRequested,
    /// More bytes of the runtime arrived.
    BytesRead(Vec<u8>),
    /// The runtime will send nothing more.
    StreamEnded,
    /// The bytes of the runtime could not be read.
    ReadFailed(IoFailure),
    /// The owner has a message for the runtime, or will never have one again.
    Outgoing(Option<Vec<u8>>),
    /// The message of the runtime was passed on.
    Forwarded,
    /// Nobody takes messages of the runtime any more.
    ForwardFailed,
    /// The message for the runtime was written.
    Written,
    /// The message for the runtime could not be written.
    WriteFailed(IoFailure),
}

/// What an endpoint asks for.
pub enum HostAction {
    /// Pass a message of the runtime on.
    Forward(Vec<u8>),
    /// Write a frame to the runtime.
    Write(Vec<u8>),
    /// Drop the connection, which ended for this reason if for any, and throw away the
    /// messages for the runtime that still wait.
    EndConnection(Option<IoFailure>),
    /// Remove the endpoint.
    Remove,
}

/// What a [`HostAction`] asks for.
pub enum HostActionView {
    /// Pass a message of the runtime on.
    Forward(Seq<u8>),
    /// Write a frame to the runtime.
    Write(Seq<u8>),
    /// Drop the connection and the messages that wait for it.
    EndConnection(Option<IoFailureView>),
    /// Remove the endpoint.
    Remove,
}

impl View for HostAction {
    type V = HostActionView;

    open spec fn view(&self) -> HostActionView {
        match self {
            HostAction::Forward(message) => HostActionView::Forward(message@),
            HostAction::Write(frame) => HostActionView::Write(frame@),
            HostAction::EndConnection(Some(reason)) => HostActionView::EndConnection(
                Some(reason@),
            ),
            HostAction::EndConnection(None) => HostActionView::EndConnection(None),
            HostAction::Remove => HostActionView::Remove,
        }
    }
}

/// The failure that ends a connection whose messages nobody takes any more.
pub open spec fn controller_stopped() -> IoFailureView {
    IoFailureView { kind: IoErrorKind::BrokenPipe, message: "Network controller stopped"@ }
}

/// Host-owned endpoint of one controlled sandbox runtime.
pub struct HostEndpoint {
    phase: HostPhase,
    reader: FrameReader,
    ready: Vec<Vec<u8>>,
}

/// What a [`HostEndpoint`] holds.
pub struct HostView {
    /// Where it stands.
    pub phase: HostPhase,
    /// What has arrived of the runtime's next message.
    pub held: Seq<u8>,
    /// The messages of the runtime that are complete and not yet passed on.
    pub ready: Seq<Seq<u8>>,
}

impl View for HostEndpoint {
    type V = HostView;

    closed spec fn view(&self) -> HostView {
        HostView {
            phase: self.phase,
            held: self.reader@,
            ready: crate::network::reader::payload_views(self.ready@),
        }
    }
}

impl HostView {
    /// An endpoint that holds nothing of any connection.
    pub open spec fn empty(phase: HostPhase) -> Self {
        HostView { phase, held: Seq::empty(), ready: Seq::empty() }
    }

    /// Whether a runtime is connected.
    pub open spec fn is_connected(self) -> bool {
        self.phase == HostPhase::Serving || self.phase == HostPhase::Forwarding || self.phase
            == HostPhase::Writing
    }

    /// No complete message is held back: none among the bytes, and none at all while the
    /// endpoint waits for bytes or writes. Without a connection nothing is held.
    pub open spec fn wf(self) -> bool {
        &&& crate::network::reader::whole_frames(self.held).len() == 0
        &&& self.phase != HostPhase::Forwarding ==> {
            &&& self.ready == Seq::<Seq<u8>>::empty()
            &&& !crate::network::reader::oversized(self.held)
        }
        &&& !self.is_connected() ==> self.held == Seq::<u8>::empty()
    }

    /// Whether an event can happen in this phase.
    pub open spec fn expects(self, event: HostEvent) -> bool {
        match self.phase {
            HostPhase::Accepting => event is Accepted || event is AcceptFailed
                || event is ShutdownRequested,
            HostPhase::Serving => event is BytesRead || event is StreamEnded
                || event is ReadFailed || event is Outgoing || event is ShutdownRequested,
            HostPhase::Forwarding => event is Forwarded || event is ForwardFailed
                || event is ShutdownRequested,
            HostPhase::Writing => event is Written || event is WriteFailed
                || event is ShutdownRequested,
            HostPhase::Stopped => false,
        }
    }

    /// The end of a connection: the endpoint waits for the next one.
    pub open spec fn connection_over(reason: Option<IoFailureView>) -> (
        Self,
        Seq<HostActionView>,
    ) {
        (
            HostView::empty(HostPhase::Accepting),
            seq![HostActionView::EndConnection(reason)],
        )
    }

    /// What an endpoint does once these messages are complete: it passes the first of them on.
    /// Where there is none, it ends the connection if a length over the limit follows, and
    /// waits for more otherwise.
    pub open spec fn passing(ready: Seq<Seq<u8>>, held: Seq<u8>) -> (Self, Seq<HostActionView>) {
        if ready.len() > 0 {
            (
                HostView { phase: HostPhase::Forwarding, held, ready: ready.skip(1) },
                seq![HostActionView::Forward(ready[0])],
            )
        } else if crate::network::reader::oversized(held) {
            HostView::connection_over(Some(crate::network::frame::too_large()))
        } else {
            (HostView { phase: HostPhase::Serving, held, ready }, Seq::empty())
        }
    }

    /// The state and the actions that an event leads to.
    pub open spec fn next(self, event: HostEvent) -> (Self, Seq<HostActionView>) {
        match event {
            HostEvent::Accepted => (HostView::empty(HostPhase::Serving), Seq::empty()),
            HostEvent::AcceptFailed => (
                HostView::empty(HostPhase::Stopped),
                seq![HostActionView::Remove],
            ),
            HostEvent::ShutdownRequested => (
                HostView::empty(HostPhase::Stopped),
                if self.is_connected() {
                    seq![HostActionView::EndConnection(None), HostActionView::Remove]
                } else {
                    seq![HostActionView::Remove]
                },
            ),
            HostEvent::BytesRead(bytes) => HostView::passing(
                crate::network::reader::whole_frames(self.held + bytes@),
                crate::network::reader::left_over(self.held + bytes@),
            ),
            HostEvent::StreamEnded => HostView::connection_over(
                match crate::network::frame::unframed(self.held) {
                    Ok(_) => None,
                    Err(failure) => Some(failure),
                },
            ),
            HostEvent::ReadFailed(failure) => HostView::connection_over(Some(failure@)),
            HostEvent::Outgoing(Some(message)) => match crate::network::frame::framed(message@) {
                Ok(frame) => (
                    HostView { phase: HostPhase::Writing, ..self },
                    seq![HostActionView::Write(frame)],
                ),
                Err(failure) => HostView::connection_over(Some(failure)),
            },
            HostEvent::Outgoing(None) => HostView::connection_over(None),
            HostEvent::Forwarded => HostView::passing(self.ready, self.held),
            HostEvent::ForwardFailed => HostView::connection_over(Some(controller_stopped())),
            HostEvent::Written => (HostView { phase: HostPhase::Serving, ..self }, Seq::empty()),
            HostEvent::WriteFailed(failure) => HostView::connection_over(Some(failure@)),
        }
    }
}

/// What a list of actions asks for.
pub open spec fn action_views(actions: Seq<HostAction>) -> Seq<HostActionView> {
    actions.map_values(|action: HostAction| action@)
}

impl HostEndpoint {
    /// An endpoint that no runtime has connected to yet.
    pub fn new() -> (endpoint: Self)
        ensures
            endpoint@ == HostView::empty(HostPhase::Accepting),
            endpoint@.wf(),
    {
        let endpoint: HostEndpoint = Self::cleared(HostPhase::Accepting);
        endpoint
    }

    /// Where the endpoint stands.
    pub fn phase(&self) -> (phase: HostPhase)
        ensures
            phase == self@.phase,
    {
        self.phase
    }

    /// Takes an event in, and says what is to be done about it.
    pub fn step(self, event: HostEvent) -> (out: (Self, Vec<HostAction>))
        requires
            self@.wf(),
            self@.expects(event),
        ensures
            out.0@.wf(),
            (out.0@, action_views(out.1@)) == self@.next(event),
    {
        let ghost before = self@;
        proof {
            endpoints_stay_sound(before, event);
        }
        let HostEndpoint { phase, reader, ready } = self;
        let mut actions: Vec<HostAction> = Vec::new();
        match event {
            HostEvent::Accepted => {
                assert(action_views(actions@) =~= Seq::empty());
                (Self::cleared(HostPhase::Serving), actions)
            },
            HostEvent::AcceptFailed => {
                actions.push(HostAction::Remove);
                assert(action_views(actions@) =~= seq![HostActionView::Remove]);
                (Self::cleared(HostPhase::Stopped), actions)
            },
            HostEvent::ShutdownRequested => {
                if phase != HostPhase::Accepting {
                    actions.push(HostAction::EndConnection(None));
                }
                actions.push(HostAction::Remove);
                assert(action_views(actions@) =~= before.next(event).1);
                (Self::cleared(HostPhase::Stopped), actions)
            },
            HostEvent::BytesRead(bytes) => {
                let mut reader: FrameReader = reader;
                match reader.take_in(bytes.as_slice()) {
                    Ok(payloads) => Self::pass_on(reader, payloads),
                    Err(failure) => {
                        assert(crate::network::reader::left_over(before.held + bytes@)
                            == before.held + bytes@) by {
                            crate::network::reader::streams_are_frames_and_a_rest(
                                before.held + bytes@,
                            );
                            assert(crate::network::reader::whole_frames(before.held + bytes@)
                                =~= Seq::empty());
                        }
                        Self::end_connection(Some(failure))
                    },
                }
            },
            HostEvent::StreamEnded => match reader.finish() {
                Ok(_) => Self::end_connection(None),
                Err(failure) => Self::end_connection(Some(failure)),
            },
            HostEvent::ReadFailed(failure) => Self::end_connection(Some(failure)),
            HostEvent::Outgoing(Some(message)) => match write_frame(message.as_slice()) {
                Ok(frame) => {
                    actions.push(HostAction::Write(frame));
                    assert(action_views(actions@) =~= seq![HostActionView::Write(frame@)]);
                    (HostEndpoint { phase: HostPhase::Writing, reader, ready }, actions)
                },
                Err(failure) => Self::end_connection(Some(failure)),
            },
            HostEvent::Outgoing(None) => Self::end_connection(None),
            HostEvent::Forwarded => Self::pass_on(reader, ready),
            HostEvent::ForwardFailed => Self::end_connection(
                Some(IoFailure::new(IoErrorKind::BrokenPipe, "Network controller stopped")),
            ),
            HostEvent::Written => {
                assert(action_views(actions@) =~= Seq::empty());
                (HostEndpoint { phase: HostPhase::Serving, reader, ready }, actions)
            },
            HostEvent::WriteFailed(failure) => Self::end_connection(Some(failure)),
        }
    }

    fn cleared(phase: HostPhase) -> (endpoint: Self)
        ensures
            endpoint@ == HostView::empty(phase),
    {
        let endpoint: HostEndpoint = HostEndpoint {
            phase,
            reader: FrameReader::new(),
            ready: Vec::new(),
        };
        assert(endpoint@.ready =~= Seq::empty());
        endpoint
    }

    /// Ends the connection for a reason, if there is one.
    fn end_connection(reason: Option<IoFailure>) -> (out: (Self, Vec<HostAction>))
        ensures
            (out.0@, action_views(out.1@)) == HostView::connection_over(
                match reason {
                    Some(failure) => Some(failure@),
                    None => None,
                },
            ),
    {
        let mut actions: Vec<HostAction> = Vec::new();
        actions.push(HostAction::EndConnection(reason));
        assert(action_views(actions@) =~= seq![actions@[0]@]);
        (Self::cleared(HostPhase::Accepting), actions)
    }

    /// Passes the first of the complete messages on, if there is one.
    fn pass_on(reader: FrameReader, ready: Vec<Vec<u8>>) -> (out: (Self, Vec<HostAction>))
        requires
            reader.wf(),
        ensures
            (out.0@, action_views(out.1@)) == HostView::passing(
                crate::network::reader::payload_views(ready@),
                reader@,
            ),
    {
        let ghost messages = crate::network::reader::payload_views(ready@);
        if ready.len() > 0 {
            let mut ready: Vec<Vec<u8>> = ready;
            let message: Vec<u8> = ready.remove(0);
            let mut actions: Vec<HostAction> = Vec::new();
            actions.push(HostAction::Forward(message));
            assert(crate::network::reader::payload_views(ready@) =~= messages.skip(1));
            assert(action_views(actions@) =~= seq![HostActionView::Forward(messages[0])]);
            return (HostEndpoint { phase: HostPhase::Forwarding, reader, ready }, actions);
        }
        let mut reader: FrameReader = reader;
        let ghost held = reader@;
        match reader.take_in(&[]) {
            Ok(_) => {
                let actions: Vec<HostAction> = Vec::new();
                assert(action_views(actions@) =~= Seq::empty());
                (HostEndpoint { phase: HostPhase::Serving, reader, ready }, actions)
            },
            Err(failure) => Self::end_connection(Some(failure)),
        }
    }
}

/// An endpoint never holds a complete message back, nor anything of a connection that is over.
pub proof fn endpoints_stay_sound(host: HostView, event: HostEvent)
    requires
        host.wf(),
        host.expects(event),
    ensures
        host.next(event).0.wf(),
{
    assert(crate::network::reader::whole_frames(Seq::<u8>::empty()).len() == 0);
    if let HostEvent::BytesRead(bytes) = event {
        crate::network::reader::streams_are_frames_and_a_rest(host.held + bytes@);
        assert(crate::network::reader::whole_frames(host.held + bytes@).len() == 0
            ==> crate::network::reader::whole_frames(host.held + bytes@) =~= Seq::empty());
    }
    if event is Forwarded {
        assert(host.ready.len() == 0 ==> host.ready =~= Seq::empty());
    }
}

/// An endpoint that its owner drops goes away, whatever it is doing.
pub proof fn dropping_the_receiver_stops_the_endpoint(host: HostView)
    requires
        host.phase != HostPhase::Stopped,
    ensures
        host.expects(HostEvent::ShutdownRequested),
        ({
            let (next, actions) = host.next(HostEvent::ShutdownRequested);
            &&& next == HostView::empty(HostPhase::Stopped)
            &&& actions.last() is Remove
        }),
{
}

/// The endpoint survives whatever ends a connection: it then waits for the next one, holds
/// nothing of the old one, and then alone asks for the messages that still wait to be thrown
/// away.
pub proof fn endpoint_outlives_connections(host: HostView, event: HostEvent)
    requires
        host.expects(event),
        host.is_connected(),
        event !is ShutdownRequested,
    ensures
        host.next(event).0.phase != HostPhase::Stopped,
        host.next(event).0.phase == HostPhase::Accepting <==> (exists|i: int|
            0 <= i < host.next(event).1.len() && host.next(event).1[i] is EndConnection),
        host.next(event).0.phase == HostPhase::Accepting ==> host.next(event).0
            == HostView::empty(HostPhase::Accepting),
{
    if host.next(event).0.phase == HostPhase::Accepting {
        assert(host.next(event).1[0] is EndConnection);
    }
}

/// A message that the host writes is read back whole by the runtime.
pub proof fn written_messages_are_read_back(host: HostView, message: Vec<u8>, rest: Seq<u8>)
    requires
        message@.len() <= crate::network::frame::MAX_CONTROL_MESSAGE_LENGTH,
    ensures
        host.next(HostEvent::Outgoing(Some(message))).1 == seq![
            HostActionView::Write(crate::network::frame::framed(message@)->Ok_0),
        ],
        crate::network::frame::unframed(crate::network::frame::framed(message@)->Ok_0 + rest)
            == Ok::<_, IoFailureView>(Some((message@, rest))),
{
    crate::network::frame::frames_read_back(message@, rest);
}

} // verus!
