//! Messages of the network control protocol.

use vstd::prelude::*;

verus! {

/// Stable protocol selected by compatible sandbox runtimes and network backends.
pub const NETWORK_CONTROL_PROTOCOL: &'static str = "microsandbox.network-control.v2";

/// Transport protocol associated with an outbound operation.
#[derive(Clone, Copy, Debug, PartialEq, Eq, Structural)]
pub enum TransportProtocol {
    /// Transmission Control Protocol.
    Tcp,
    /// User Datagram Protocol.
    Udp,
    /// Internet Control Message Protocol for IPv4.
    Icmpv4,
    /// Internet Control Message Protocol for IPv6.
    Icmpv6,
}

/// Scheme of a request observed by trusted protocol inspection.
#[derive(Clone, Copy, Debug, PartialEq, Eq, Structural)]
pub enum HttpScheme {
    /// Plaintext HTTP.
    Http,
    /// HTTP carried through intercepted TLS.
    Https,
}

/// HTTP framing version observed by the trusted runtime.
#[derive(Clone, Copy, Debug, PartialEq, Eq, Structural)]
pub enum HttpVersion {
    /// HTTP/1.0 or HTTP/1.1 framing.
    Http1,
    /// HTTP/2 framing.
    Http2,
}

/// An internet address with a port.
#[derive(Clone, Copy, Debug, PartialEq, Eq)]
pub enum SocketAddress {
    /// An IPv4 address.
    V4 {
        /// The four bytes of the address.
        octets: [u8; 4],
        /// The port.
        port: u16,
    },
    /// An IPv6 address.
    V6 {
        /// The eight segments of the address.
        segments: [u16; 8],
        /// The port.
        port: u16,
        /// The flow information.
        flowinfo: u32,
        /// The scope identifier.
        scope_id: u32,
    },
}

/// Trusted outbound operation described by the network engine.
#[derive(Clone, Debug, PartialEq, Eq)]
pub enum NetworkOperation {
    /// Open a transport-layer flow to a destination.
    Connect {
        /// Sandbox source address observed by the network engine.
        source: Option<SocketAddress>,
        /// Original destination requested by the sandbox.
        destination: SocketAddress,
        /// Transport used by the flow.
        transport: TransportProtocol,
        /// Host name established by trusted protocol inspection, when available.
        hostname: Option<String>,
    },
    /// Resolve one DNS name through the host network stack.
    DnsQuery {
        /// Canonical query name without a trailing root label.
        name: String,
        /// DNS record type as a stable textual value.
        record_type: String,
        /// Resolver selected by the sandbox, when it did not use the virtual gateway.
        resolver: Option<SocketAddress>,
        /// UDP or TCP transport used by the query.
        transport: TransportProtocol,
    },
    /// Authorize one HTTP request before forwarding its bytes upstream.
    HttpRequest {
        /// Original transport destination requested by the sandbox.
        destination: SocketAddress,
        /// Plaintext or intercepted-TLS scheme.
        scheme: HttpScheme,
        /// Request authority reported by trusted protocol parsing.
        authority: String,
        /// HTTP method.
        method: String,
        /// Request path with its query removed, or empty for an authority-form request.
        path: String,
        /// HTTP framing version.
        version: HttpVersion,
        /// HTTP/2 stream identifier, absent for HTTP/1.
        stream_id: Option<u32>,
    },
}

/// Message emitted by the trusted runtime.
#[derive(Clone, Debug, PartialEq, Eq)]
pub enum RuntimeMessage {
    /// Establish the exact protocol version before exchanging requests.
    Hello {
        /// Requested protocol identity.
        protocol: String,
    },
    /// Ask the host to authorize an operation before it is performed.
    AuthorizationRequest {
        /// Request identifier scoped to this runtime instance.
        request_id: u64,
        /// Flow identifier used by later revocation.
        flow_id: u64,
        /// Operation observed by the trusted network engine.
        operation: NetworkOperation,
    },
    /// Release host-side state for a completed flow.
    FlowClosed {
        /// Flow identifier from the corresponding authorization request.
        flow_id: u64,
    },
}

/// Host authorization result.
#[derive(Clone, Copy, Debug, PartialEq, Eq, Structural)]
pub enum AuthorizationDecision {
    /// Permit the requested operation.
    Allow,
    /// Refuse the requested operation.
    Deny,
}

/// Message returned by the host-side network backend.
#[derive(Clone, Debug, PartialEq, Eq)]
pub enum ControllerMessage {
    /// Accept the requested protocol version.
    HelloAccepted {
        /// Accepted protocol identity.
        protocol: String,
    },
    /// Complete one authorization request.
    AuthorizationDecision {
        /// Runtime request being completed.
        request_id: u64,
        /// Authorization result.
        decision: AuthorizationDecision,
    },
    /// Revoke a previously allowed live flow.
    Revoke {
        /// Flow to terminate.
        flow_id: u64,
    },
}

} // verus!
