//! Bounded, length-delimited framing of control messages.
//!
//! A frame is the length of its payload as four bytes, most significant first, followed by
//! the payload. No payload is longer than [`MAX_CONTROL_MESSAGE_LENGTH`] bytes.

use vstd::prelude::*;

use crate::fault::{IoErrorKind, IoFailure, IoFailureView};

verus! {

/// Maximum serialized control message accepted from either peer.
pub const MAX_CONTROL_MESSAGE_LENGTH: usize = 64 * 1024;

/// Number of bytes that hold a payload's length.
pub const FRAME_HEADER_LENGTH: usize = 4;

/// A length as four bytes, most significant first.
pub open spec fn length_bytes(n: int) -> Seq<u8> {
    seq![
        (n / 0x100_0000) as u8,
        ((n / 0x1_0000) % 0x100) as u8,
        ((n / 0x100) % 0x100) as u8,
        (n % 0x100) as u8,
    ]
}

/// The number that four bytes stand for, most significant first.
pub open spec fn length_value(header: Seq<u8>) -> int {
    header[0] * 0x100_0000 + header[1] * 0x1_0000 + header[2] * 0x100 + header[3]
}

/// The failure that answers a message over the limit.
pub open spec fn too_large() -> IoFailureView {
    IoFailureView {
        kind: IoErrorKind::InvalidData,
        message: "Network control message is too large"@,
    }
}

/// The failure that answers a stream which ends inside a payload.
pub open spec fn truncated() -> IoFailureView {
    IoFailureView { kind: IoErrorKind::UnexpectedEof, message: "early eof"@ }
}

/// The frame of a payload, or the refusal of one over the limit.
pub open spec fn framed(payload: Seq<u8>) -> Result<Seq<u8>, IoFailureView> {
    if payload.len() <= MAX_CONTROL_MESSAGE_LENGTH {
        Ok(length_bytes(payload.len() as int) + payload)
    } else {
        Err(too_large())
    }
}

/// What a peer reads from a stream that holds exactly `input` before it ends: the first
/// payload and what follows it, nothing where the stream ends before a whole length, or a
/// failure.
pub open spec fn unframed(input: Seq<u8>) -> Result<Option<(Seq<u8>, Seq<u8>)>, IoFailureView> {
    let n = length_value(input);
    if input.len() < FRAME_HEADER_LENGTH {
        Ok(None)
    } else if n > MAX_CONTROL_MESSAGE_LENGTH {
        Err(too_large())
    } else if input.len() < FRAME_HEADER_LENGTH + n {
        Err(truncated())
    } else {
        Ok(
            Some(
                (
                    input.subrange(FRAME_HEADER_LENGTH as int, FRAME_HEADER_LENGTH + n),
                    input.skip(FRAME_HEADER_LENGTH + n),
                ),
            ),
        )
    }
}

fn too_large_failure() -> (failure: IoFailure)
    ensures
        failure@ == too_large(),
{
    IoFailure::new(IoErrorKind::InvalidData, "Network control message is too large")
}

/// The four length bytes for a payload of `length` bytes.
pub fn frame_header(length: usize) -> (header: Result<[u8; 4], IoFailure>)
    ensures
        header is Ok <==> length <= MAX_CONTROL_MESSAGE_LENGTH,
        header matches Ok(bytes) ==> bytes@ == length_bytes(length as int),
        header matches Err(failure) ==> failure@ == too_large(),
{
    if length > MAX_CONTROL_MESSAGE_LENGTH {
        return Err(too_large_failure());
    }
    let bytes: [u8; 4] = [
        (length / 0x100_0000) as u8,
        ((length / 0x1_0000) % 0x100) as u8,
        ((length / 0x100) % 0x100) as u8,
        (length % 0x100) as u8,
    ];
    assert(bytes@ =~= length_bytes(length as int));
    Ok(bytes)
}

/// The payload length that four length bytes announce, refused over the limit before any of
/// the payload is read.
pub fn frame_length(header: [u8; 4]) -> (length: Result<usize, IoFailure>)
    ensures
        length is Ok <==> length_value(header@) <= MAX_CONTROL_MESSAGE_LENGTH,
        length matches Ok(n) ==> n == length_value(header@),
        length matches Err(failure) ==> failure@ == too_large(),
{
    let length: u32 = header[0] as u32 * 0x100_0000 + header[1] as u32 * 0x1_0000
        + header[2] as u32 * 0x100 + header[3] as u32;
    if length as usize > MAX_CONTROL_MESSAGE_LENGTH {
        return Err(too_large_failure());
    }
    Ok(length as usize)
}

/// The frame that carries a payload.
pub fn write_frame(payload: &[u8]) -> (frame: Result<Vec<u8>, IoFailure>)
    ensures
        match (frame, framed(payload@)) {
            (Ok(bytes), Ok(expected)) => bytes@ == expected,
            (Err(failure), Err(expected)) => failure@ == expected,
            _ => false,
        },
{
    match frame_header(payload.len()) {
        Ok(header) => {
            let mut bytes: Vec<u8> = Vec::new();
            bytes.push(header[0]);
            bytes.push(header[1]);
            bytes.push(header[2]);
            bytes.push(header[3]);
            bytes.extend_from_slice(payload);
            assert(bytes@ =~= length_bytes(payload@.len() as int) + payload@);
            Ok(bytes)
        },
        Err(failure) => Err(failure),
    }
}

/// The first payload of a stream that holds exactly `input`, with the number of bytes that
/// its frame takes.
pub fn read_frame(input: &[u8]) -> (payload: Result<Option<(Vec<u8>, usize)>, IoFailure>)
    ensures
        match (payload, unframed(input@)) {
            (Ok(Some((bytes, used))), Ok(Some((expected, rest)))) => {
                &&& bytes@ == expected
                &&& used <= input@.len()
                &&& input@.skip(used as int) == rest
            },
            (Ok(None), Ok(None)) => true,
            (Err(failure), Err(expected)) => failure@ == expected,
            _ => false,
        },
{
    if input.len() < FRAME_HEADER_LENGTH {
        return Ok(None);
    }
    let header: [u8; 4] = [input[0], input[1], input[2], input[3]];
    assert(length_value(header@) == length_value(input@));
    match frame_length(header) {
        Ok(length) => {
            if input.len() - FRAME_HEADER_LENGTH < length {
                return Err(IoFailure::new(IoErrorKind::UnexpectedEof, "early eof"));
            }
            let used: usize = FRAME_HEADER_LENGTH + length;
            let bytes: Vec<u8> = vstd::slice::slice_to_vec(
                vstd::slice::slice_subrange(input, FRAME_HEADER_LENGTH, used),
            );
            Ok(Some((bytes, used)))
        },
        Err(failure) => Err(failure),
    }
}

/// The failure that answers a message whose serialized form is not acceptable.
pub open spec fn unacceptable(reason: Seq<char>) -> IoFailureView {
    IoFailureView { kind: IoErrorKind::InvalidData, message: reason }
}

/// The frame of a message, given what its serialization came to.
pub fn write_message(serialized: Result<Vec<u8>, String>) -> (frame: Result<Vec<u8>, IoFailure>)
    ensures
        match serialized {
            Ok(payload) => match (frame, framed(payload@)) {
                (Ok(bytes), Ok(expected)) => bytes@ == expected,
                (Err(failure), Err(expected)) => failure@ == expected,
                _ => false,
            },
            Err(reason) => frame matches Err(failure) && failure@ == unacceptable(reason@),
        },
{
    match serialized {
        Ok(payload) => write_frame(payload.as_slice()),
        Err(reason) => Err(IoFailure { kind: IoErrorKind::InvalidData, message: reason }),
    }
}

/// Whether `message` is what a peer reads with `parse` from a stream that holds exactly `input`
/// before it ends: what `parse` makes of the first payload, with the number of bytes that its
/// frame takes, nothing where the stream ends before a whole length, or a failure.
pub open spec fn reads_as<T, F: Fn(&[u8]) -> Result<T, String>>(
    parse: F,
    input: Seq<u8>,
    message: Result<Option<(T, usize)>, IoFailure>,
) -> bool {
    match unframed(input) {
        Ok(None) => message matches Ok(None),
        Err(expected) => message matches Err(failure) && failure@ == expected,
        Ok(Some((payload, rest))) => exists|bytes: &[u8], parsed: Result<T, String>|
            {
                &&& bytes@ == payload
                &&& #[trigger] call_ensures(parse, (bytes,), parsed)
                &&& match (parsed, message) {
                    (Ok(value), Ok(Some((read, used)))) => {
                        &&& read == value
                        &&& used <= input.len()
                        &&& input.skip(used as int) == rest
                    },
                    (Err(reason), Err(failure)) => failure@ == unacceptable(reason@),
                    _ => false,
                }
            },
    }
}

/// Whether `parse` makes this message, and nothing else, of a payload.
pub open spec fn parses_to<T, F: Fn(&[u8]) -> Result<T, String>>(
    parse: F,
    payload: Seq<u8>,
    message: T,
) -> bool {
    forall|bytes: &[u8], parsed: Result<T, String>| #[trigger]
        call_ensures(parse, (bytes,), parsed) && bytes@ == payload ==> parsed == Ok::<T, String>(
            message,
        )
}

/// The first message of a stream that holds exactly `input`, with the number of bytes that
/// its frame takes. The payload of the frame, and nothing else, is handed to `parse`.
pub fn read_message<T, F: Fn(&[u8]) -> Result<T, String>>(
    input: &[u8],
    parse: F,
) -> (message: Result<Option<(T, usize)>, IoFailure>)
    requires
        forall|payload: &[u8]| call_requires(parse, (payload,)),
    ensures
        reads_as(parse, input@, message),
{
    match read_frame(input) {
        Ok(Some((payload, used))) => {
            let bytes: &[u8] = payload.as_slice();
            let parsed: Result<T, String> = parse(bytes);
            match parsed {
                Ok(value) => Ok(Some((value, used))),
                Err(reason) => Err(
                    IoFailure { kind: IoErrorKind::InvalidData, message: reason },
                ),
            }
        },
        Ok(None) => Ok(None),
        Err(failure) => Err(failure),
    }
}

/// Reading back the frame of a payload gives that payload and leaves what follows it.
pub proof fn frames_read_back(payload: Seq<u8>, rest: Seq<u8>)
    requires
        payload.len() <= MAX_CONTROL_MESSAGE_LENGTH,
    ensures
        framed(payload) is Ok,
        unframed(framed(payload)->Ok_0 + rest) == Ok::<_, IoFailureView>(Some((payload, rest))),
{
    let frame = framed(payload)->Ok_0;
    let input = frame + rest;
    let n = payload.len() as int;
    assert(input[0] == (n / 0x100_0000) as u8);
    assert(input[1] == ((n / 0x1_0000) % 0x100) as u8);
    assert(input[2] == ((n / 0x100) % 0x100) as u8);
    assert(input[3] == (n % 0x100) as u8);
    assert(length_value(input) == n);
    assert(input.subrange(4, 4 + n) =~= payload);
    assert(input.skip(4 + n) =~= rest);
}

/// Each read consumes one frame: of two messages that were written one after the other, with a
/// parser that undoes their serialization, the first read gives the first message, the next one
/// the second, and the one after that finds the end of the stream.
pub proof fn messages_in_a_row_are_read_back<T, F: Fn(&[u8]) -> Result<T, String>>(
    parse: F,
    first_payload: Seq<u8>,
    second_payload: Seq<u8>,
    first: T,
    second: T,
    first_read: Result<Option<(T, usize)>, IoFailure>,
    second_read: Result<Option<(T, usize)>, IoFailure>,
    last_read: Result<Option<(T, usize)>, IoFailure>,
)
    requires
        first_payload.len() <= MAX_CONTROL_MESSAGE_LENGTH,
        second_payload.len() <= MAX_CONTROL_MESSAGE_LENGTH,
        parses_to(parse, first_payload, first),
        parses_to(parse, second_payload, second),
        ({
            let stream = framed(first_payload)->Ok_0 + framed(second_payload)->Ok_0;
            &&& reads_as(parse, stream, first_read)
            &&& first_read matches Ok(Some((_, used))) ==> reads_as(
                parse,
                stream.skip(used as int),
                second_read,
            )
            &&& second_read matches Ok(Some((_, used))) ==> reads_as(
                parse,
                framed(second_payload)->Ok_0.skip(used as int),
                last_read,
            )
        }),
    ensures
        first_read matches Ok(Some((message, used))) && message == first && used
            == framed(first_payload)->Ok_0.len(),
        second_read matches Ok(Some((message, used))) && message == second && used
            == framed(second_payload)->Ok_0.len(),
        last_read matches Ok(None),
{
    let head = framed(first_payload)->Ok_0;
    let tail = framed(second_payload)->Ok_0;
    frames_read_back(first_payload, tail);
    frames_read_back(second_payload, Seq::empty());
    assert(tail + Seq::<u8>::empty() =~= tail);
    if let Ok(Some((_, used))) = first_read {
        assert((head + tail).skip(used as int).len() == tail.len());
    }
    if let Ok(Some((_, used))) = second_read {
        assert(tail.skip(used as int).len() == 0);
    }
}

/// A length over the limit is refused whatever follows it, so no payload is ever awaited or
/// held for it.
pub proof fn oversized_lengths_are_refused(input: Seq<u8>, rest: Seq<u8>)
    requires
        input.len() >= FRAME_HEADER_LENGTH,
        length_value(input) > MAX_CONTROL_MESSAGE_LENGTH,
    ensures
        unframed(input + rest) == Err::<Option<(Seq<u8>, Seq<u8>)>, _>(too_large()),
{
    assert(length_value(input + rest) == length_value(input));
}

/// Every payload that is read is within the limit, and the bytes read for it are its frame.
pub proof fn payloads_are_bounded(input: Seq<u8>)
    ensures
        unframed(input) matches Ok(Some((payload, rest))) ==> {
            &&& payload.len() <= MAX_CONTROL_MESSAGE_LENGTH
            &&& framed(payload) == Ok::<_, IoFailureView>(
                input.take(FRAME_HEADER_LENGTH + payload.len()),
            )
            &&& input == framed(payload)->Ok_0 + rest
        },
{
    if let Ok(Some((payload, rest))) = unframed(input) {
        let n = length_value(input);
        assert(payload.len() == n);
        assert(n / 0x100_0000 == input[0]);
        assert((n / 0x1_0000) % 0x100 == input[1]);
        assert((n / 0x100) % 0x100 == input[2]);
        assert(n % 0x100 == input[3]);
        assert(length_bytes(n) + payload =~= input.take(4 + n));
        assert(input =~= input.take(4 + n) + rest);
    }
}

} // verus!
