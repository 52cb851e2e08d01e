//! Framing of control messages, and messages carried through frames.

use sandbox_control::fault::IoErrorKind;
use sandbox_control::network::frame::{
    frame_header, frame_length, read_frame, read_message, write_frame, write_message,
    MAX_CONTROL_MESSAGE_LENGTH,
};
use sandbox_control::network::message::{
    HttpScheme, HttpVersion, NetworkOperation, RuntimeMessage, SocketAddress, TransportProtocol,
};
use sandbox_control::network::reader::FrameReader;
use serde_json::Value;

fn address_text(address: &SocketAddress) -> String {
    match address {
        SocketAddress::V4 { octets, port } => {
            format!("{}.{}.{}.{}:{}", octets[0], octets[1], octets[2], octets[3], port)
        }
        SocketAddress::V6 { .. } => panic!("no IPv6 address is used here"),
    }
}

fn address_value(text: &str) -> SocketAddress {
    let (host, port) = text.split_once(':').unwrap();
    let parts: Vec<u8> = host.split('.').map(|part| part.parse().unwrap()).collect();
    SocketAddress::V4 {
        octets: [parts[0], parts[1], parts[2], parts[3]],
        port: port.parse().unwrap(),
    }
}

fn text(value: &str) -> Value {
    Value::String(value.to_string())
}

fn transport_name(transport: TransportProtocol) -> &'static str {
    match transport {
        TransportProtocol::Tcp => "tcp",
        TransportProtocol::Udp => "udp",
        TransportProtocol::Icmpv4 => "icmpv4",
        TransportProtocol::Icmpv6 => "icmpv6",
    }
}

fn transport_of(name: &str) -> TransportProtocol {
    match name {
        "tcp" => TransportProtocol::Tcp,
        "udp" => TransportProtocol::Udp,
        "icmpv4" => TransportProtocol::Icmpv4,
        "icmpv6" => TransportProtocol::Icmpv6,
        _ => panic!("no transport"),
    }
}

fn scheme_name(scheme: HttpScheme) -> &'static str {
    match scheme {
        HttpScheme::Http => "http",
        HttpScheme::Https => "https",
    }
}

fn scheme_of(name: &str) -> HttpScheme {
    match name {
        "http" => HttpScheme::Http,
        "https" => HttpScheme::Https,
        _ => panic!("no scheme"),
    }
}

fn version_name(version: HttpVersion) -> &'static str {
    match version {
        HttpVersion::Http1 => "http1",
        HttpVersion::Http2 => "http2",
    }
}

fn version_of(name: &str) -> HttpVersion {
    match name {
        "http1" => HttpVersion::Http1,
        "http2" => HttpVersion::Http2,
        _ => panic!("no version"),
    }
}

fn serialize(message: &RuntimeMessage) -> Vec<u8> {
    let mut object = serde_json::Map::new();
    let mut details = serde_json::Map::new();
    if let RuntimeMessage::Hello { protocol } = message {
        object.insert("type".to_string(), text("hello"));
        object.insert("protocol".to_string(), text(protocol));
    }
    if let RuntimeMessage::FlowClosed { flow_id } = message {
        object.insert("type".to_string(), text("flowClosed"));
        object.insert("flow_id".to_string(), Value::from(*flow_id));
    }
    if let RuntimeMessage::AuthorizationRequest { request_id, flow_id, operation } = message {
        object.insert("type".to_string(), text("authorizationRequest"));
        object.insert("request_id".to_string(), Value::from(*request_id));
        object.insert("flow_id".to_string(), Value::from(*flow_id));
        match operation {
            NetworkOperation::Connect { source, destination, transport, hostname } => {
                details.insert("operation".to_string(), text("connect"));
                details.insert("transport".to_string(), text(transport_name(*transport)));
                details.insert("source".to_string(), text(&address_text(&source.unwrap())));
                details.insert("destination".to_string(), text(&address_text(destination)));
                details.insert("hostname".to_string(), text(hostname.as_ref().unwrap()));
            }
            NetworkOperation::HttpRequest {
                destination,
                scheme,
                authority,
                method,
                path,
                version,
                stream_id,
            } => {
                details.insert("operation".to_string(), text("httpRequest"));
                details.insert("scheme".to_string(), text(scheme_name(*scheme)));
                details.insert("version".to_string(), text(version_name(*version)));
                details.insert("destination".to_string(), text(&address_text(destination)));
                details.insert("authority".to_string(), text(authority));
                details.insert("method".to_string(), text(method));
                details.insert("path".to_string(), text(path));
                details.insert("stream_id".to_string(), Value::from(stream_id.unwrap()));
            }
            NetworkOperation::DnsQuery { .. } => panic!("no query is used here"),
        }
        object.insert("operation".to_string(), Value::Object(details));
    }
    Value::Object(object).to_string().into_bytes()
}

fn string_at(value: &Value, key: &str) -> String {
    value.get(key).unwrap().as_str().unwrap().to_string()
}

fn parse(payload: &[u8]) -> Result<RuntimeMessage, String> {
    let value: Value = serde_json::from_slice(payload).map_err(|error| error.to_string())?;
    match string_at(&value, "type").as_str() {
        "hello" => {
            return Ok(RuntimeMessage::Hello { protocol: string_at(&value, "protocol") });
        }
        "flowClosed" => {
            let flow_id = value.get("flow_id").unwrap().as_u64().unwrap();
            return Ok(RuntimeMessage::FlowClosed { flow_id });
        }
        "authorizationRequest" => {}
        other => return Err(format!("unknown variant `{other}`")),
    }
    let details = value.get("operation").unwrap();
    let operation = if string_at(details, "operation") == "connect" {
        NetworkOperation::Connect {
            source: Some(address_value(&string_at(details, "source"))),
            destination: address_value(&string_at(details, "destination")),
            transport: transport_of(&string_at(details, "transport")),
            hostname: Some(string_at(details, "hostname")),
        }
    } else {
        NetworkOperation::HttpRequest {
            destination: address_value(&string_at(details, "destination")),
            scheme: scheme_of(&string_at(details, "scheme")),
            authority: string_at(details, "authority"),
            method: string_at(details, "method"),
            path: string_at(details, "path"),
            version: version_of(&string_at(details, "version")),
            stream_id: Some(details.get("stream_id").unwrap().as_u64().unwrap() as u32),
        }
    };
    Ok(RuntimeMessage::AuthorizationRequest {
        request_id: value.get("request_id").unwrap().as_u64().unwrap(),
        flow_id: value.get("flow_id").unwrap().as_u64().unwrap(),
        operation,
    })
}

#[test]
fn bounded_framing_round_trips_protocol_messages() {
    let expected = RuntimeMessage::AuthorizationRequest {
        request_id: 7,
        flow_id: 9,
        operation: NetworkOperation::Connect {
            source: Some(address_value("192.0.2.2:40000")),
            destination: address_value("198.51.100.10:443"),
            transport: TransportProtocol::Tcp,
            hostname: Some("example.com".to_string()),
        },
    };

    let frame = write_message(Ok(serialize(&expected))).unwrap();
    assert!(frame.len() <= 1024);
    let (actual, used) = read_message(&frame, parse).unwrap().unwrap();

    assert_eq!(actual, expected);
    assert_eq!(used, frame.len());
}

#[test]
fn oversized_frame_is_rejected_before_payload_allocation() {
    let header = ((MAX_CONTROL_MESSAGE_LENGTH + 1) as u32).to_be_bytes();
    assert!(header.len() <= 16);

    let error = read_message(&header, parse).unwrap_err();

    assert_eq!(error.kind, IoErrorKind::InvalidData);
    assert_eq!(error.message, "Network control message is too large");
    assert_eq!(frame_length(header).unwrap_err().kind, IoErrorKind::InvalidData);
}

#[test]
fn request_authorization_round_trips_http2_metadata() {
    let expected = RuntimeMessage::AuthorizationRequest {
        request_id: 11,
        flow_id: 12,
        operation: NetworkOperation::HttpRequest {
            destination: address_value("198.51.100.10:443"),
            scheme: HttpScheme::Https,
            authority: "example.com".to_string(),
            method: "GET".to_string(),
            path: "/items".to_string(),
            version: HttpVersion::Http2,
            stream_id: Some(3),
        },
    };

    let frame = write_message(Ok(serialize(&expected))).unwrap();
    assert!(frame.len() <= 1024);
    let (actual, _) = read_message(&frame, parse).unwrap().unwrap();

    assert_eq!(actual, expected);
}

#[test]
fn a_frame_is_a_big_endian_length_and_the_payload() {
    assert_eq!(write_frame(b"abc").unwrap(), vec![0, 0, 0, 3, b'a', b'b', b'c']);
    assert_eq!(write_frame(b"").unwrap(), vec![0, 0, 0, 0]);
    assert_eq!(frame_header(0x1_0000).unwrap(), [0, 1, 0, 0]);
    assert_eq!(frame_header(0xabcd).unwrap(), [0, 0, 0xab, 0xcd]);
    assert_eq!(frame_length([0, 0, 0xab, 0xcd]).unwrap(), 0xabcd);
}

#[test]
fn the_largest_message_passes_and_a_larger_one_does_not() {
    let largest = vec![7u8; MAX_CONTROL_MESSAGE_LENGTH];
    let frame = write_frame(&largest).unwrap();
    let (payload, used) = read_frame(&frame).unwrap().unwrap();
    assert_eq!(payload, largest);
    assert_eq!(used, MAX_CONTROL_MESSAGE_LENGTH + 4);

    let larger = vec![7u8; MAX_CONTROL_MESSAGE_LENGTH + 1];
    let error = write_frame(&larger).unwrap_err();
    assert_eq!(error.kind, IoErrorKind::InvalidData);
    assert_eq!(error.message, "Network control message is too large");
    assert!(write_message(Ok(larger)).is_err());
    assert!(frame_header(MAX_CONTROL_MESSAGE_LENGTH + 1).is_err());
}

#[test]
fn what_follows_a_frame_is_left_alone() {
    let mut stream = write_frame(b"first").unwrap();
    stream.extend(write_frame(b"second").unwrap());
    let (first, used) = read_frame(&stream).unwrap().unwrap();
    assert_eq!(first, b"first");
    let (second, _) = read_frame(&stream[used..]).unwrap().unwrap();
    assert_eq!(second, b"second");
}

#[test]
fn a_stream_that_ends_is_told_from_one_that_breaks() {
    assert!(read_frame(&[]).unwrap().is_none());
    assert!(read_frame(&[0, 0, 0]).unwrap().is_none());
    let error = read_frame(&[0, 0, 0, 3, b'a']).unwrap_err();
    assert_eq!(error.kind, IoErrorKind::UnexpectedEof);
    assert_eq!(error.message, "early eof");
}

#[test]
fn unacceptable_messages_are_invalid_data() {
    let error = write_message(Err("no JSON".to_string())).unwrap_err();
    assert_eq!(error.kind, IoErrorKind::InvalidData);
    assert_eq!(error.message, "no JSON");

    let frame = write_frame(b"{").unwrap();
    let error = read_message(&frame, parse).unwrap_err();
    assert_eq!(error.kind, IoErrorKind::InvalidData);
    assert!(error.message.contains("EOF"));
}

#[test]
fn every_scheme_and_version_is_carried() {
    for (scheme, version) in [
        (HttpScheme::Http, HttpVersion::Http1),
        (HttpScheme::Http, HttpVersion::Http2),
        (HttpScheme::Https, HttpVersion::Http1),
        (HttpScheme::Https, HttpVersion::Http2),
    ] {
        let expected = RuntimeMessage::AuthorizationRequest {
            request_id: 1,
            flow_id: 2,
            operation: NetworkOperation::HttpRequest {
                destination: address_value("198.51.100.10:443"),
                scheme,
                authority: "example.com".to_string(),
                method: "GET".to_string(),
                path: "/".to_string(),
                version,
                stream_id: Some(1),
            },
        };
        let frame = write_message(Ok(serialize(&expected))).unwrap();
        let (actual, used) = read_message(&frame, parse).unwrap().unwrap();
        assert_eq!(actual, expected);
        assert_eq!(used, frame.len());
    }
}

#[test]
fn frames_come_out_whole_however_a_stream_is_cut() {
    let payloads: Vec<Vec<u8>> = vec![b"first".to_vec(), Vec::new(), b"third".to_vec()];
    let mut stream: Vec<u8> = Vec::new();
    for payload in &payloads {
        stream.extend(write_frame(payload).unwrap());
    }
    for size in 1..stream.len() + 1 {
        let mut reader = FrameReader::new();
        let mut out: Vec<Vec<u8>> = Vec::new();
        for piece in stream.chunks(size) {
            out.extend(reader.take_in(piece).unwrap());
        }
        assert_eq!(out, payloads);
        assert!(reader.finish().is_ok());
        assert!(reader.take_in(&[]).unwrap().is_empty());
    }
}

#[test]
fn a_reader_tells_where_a_stream_ends() {
    let frame = write_frame(b"payload").unwrap();
    for length in 0..frame.len() {
        let mut reader = FrameReader::new();
        assert!(reader.take_in(&frame[..length]).unwrap().is_empty());
        if length < 4 {
            assert!(reader.finish().is_ok());
        } else {
            let error = reader.finish().unwrap_err();
            assert_eq!(error.kind, IoErrorKind::UnexpectedEof);
            assert_eq!(error.message, "early eof");
        }
    }
}

#[test]
fn an_oversized_length_is_refused_after_the_frames_before_it() {
    let mut stream = write_frame(b"fine").unwrap();
    stream.extend([0, 1, 0, 1]);
    let mut reader = FrameReader::new();
    assert_eq!(reader.take_in(&stream).unwrap(), vec![b"fine".to_vec()]);
    for _ in 0..2 {
        let error = reader.take_in(&[]).unwrap_err();
        assert_eq!(error.kind, IoErrorKind::InvalidData);
        assert_eq!(error.message, "Network control message is too large");
    }
    assert!(reader.take_in(&write_frame(b"late").unwrap()).is_err());
    assert_eq!(reader.finish().unwrap_err().kind, IoErrorKind::InvalidData);
}

#[test]
fn messages_in_a_row_are_read_one_by_one() {
    let first = RuntimeMessage::Hello { protocol: "microsandbox.network-control.v2".to_string() };
    let second = RuntimeMessage::FlowClosed { flow_id: 9 };
    let mut stream = write_message(Ok(serialize(&first))).unwrap();
    let head = stream.len();
    stream.extend(write_message(Ok(serialize(&second))).unwrap());

    let (message, used) = read_message(&stream, parse).unwrap().unwrap();
    assert_eq!((message, used), (first, head));
    let (message, used) = read_message(&stream[head..], parse).unwrap().unwrap();
    assert_eq!((message, used), (second, stream.len() - head));
    assert!(read_message(&stream[head + used..], parse).unwrap().is_none());

    assert_eq!(
        &stream[..head],
        &write_frame(br#"{"protocol":"microsandbox.network-control.v2","type":"hello"}"#).unwrap()
    );
}
