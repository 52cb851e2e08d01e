//! Framing: a payload travels behind its length, four bytes with the most significant first.

use vstd::prelude::*;

use crate::fault::{IoErrorKind, IoFailure};
use crate::network::frame::{
    frame_header, frame_length, read_frame, read_message, write_frame, write_message,
};
use crate::network::reader::FrameReader;

verus! {

/// The number that the first four bytes stand for, each byte counting 256 times the next.
pub open spec fn announced(bytes: Seq<u8>) -> int {
    ((bytes[0] * 256 + bytes[1]) * 256 + bytes[2]) * 256 + bytes[3]
}

/// Whether bytes announce a payload over 64 KiB.
pub open spec fn announces_too_much(bytes: Seq<u8>) -> bool {
    bytes.len() >= 4 && announced(bytes) > 65536
}

/// Whether bytes begin with a whole frame.
pub open spec fn begins_with_frame(bytes: Seq<u8>) -> bool {
    bytes.len() >= 4 && announced(bytes) <= 65536 && bytes.len() >= 4 + announced(bytes)
}

/// Whether a failure is the refusal of a message over the limit.
pub open spec fn is_refusal(failure: IoFailure) -> bool {
    &&& failure.kind == IoErrorKind::InvalidData
    &&& failure.message@ == "Network control message is too large"@
}

/// Whether bytes are the frame of a payload.
pub open spec fn is_frame_of(frame: Seq<u8>, payload: Seq<u8>) -> bool {
    &&& payload.len() <= 65536
    &&& frame.len() == 4 + payload.len()
    &&& announced(frame) == payload.len()
    &&& frame.skip(4) == payload
}

/// Whether bytes are the frames of some payloads, one after another, followed by a rest.
pub open spec fn are_frames_of(stream: Seq<u8>, payloads: Seq<Seq<u8>>, rest: Seq<u8>) -> bool
    decreases payloads.len(),
{
    if payloads.len() == 0 {
        stream == rest
    } else {
        let end = 4 + payloads[0].len() as int;
        &&& end <= stream.len()
        &&& is_frame_of(stream.take(end), payloads[0])
        &&& are_frames_of(stream.skip(end), payloads.skip(1), rest)
    }
}

/// The length bytes stand for the length, and every length up to 64 KiB has them.
pub proof fn headers_announce_lengths(length: usize, header: Result<[u8; 4], IoFailure>)
    requires
        call_ensures(frame_header, (length,), header),
    ensures
        length <= 65536 ==> (header matches Ok(bytes) && announced(bytes@) == length),
        length > 65536 ==> (header matches Err(failure) && is_refusal(failure)),
{
}

/// Length bytes are read as the number they stand for, up to 64 KiB.
pub proof fn announced_lengths_are_read(header: [u8; 4], length: Result<usize, IoFailure>)
    requires
        call_ensures(frame_length, (header,), length),
    ensures
        announced(header@) <= 65536 ==> (length matches Ok(n) && n == announced(header@)),
        announced(header@) > 65536 ==> (length matches Err(failure) && is_refusal(failure)),
{
}

/// What is written for a payload up to 64 KiB is its frame; a larger one is refused.
pub proof fn payloads_are_written_as_frames(payload: &[u8], frame: Result<Vec<u8>, IoFailure>)
    requires
        call_ensures(write_frame, (payload,), frame),
    ensures
        payload@.len() <= 65536 ==> (frame matches Ok(bytes) && is_frame_of(bytes@, payload@)),
        payload@.len() > 65536 ==> (frame matches Err(failure) && is_refusal(failure)),
{
    if let Ok(bytes) = frame {
        assert(bytes@.skip(4) =~= payload@);
    }
}

/// What is read from a stream that ends is its first payload, where a whole frame stands there.
/// A stream that ends before a whole length holds nothing, one that announces too much is
/// refused, and one that ends inside a payload is broken.
pub proof fn streams_are_read_frame_by_frame(
    input: &[u8],
    read: Result<Option<(Vec<u8>, usize)>, IoFailure>,
)
    requires
        call_ensures(read_frame, (input,), read),
    ensures
        begins_with_frame(input@) ==> (read matches Ok(Some((payload, used))) && {
            &&& used == 4 + announced(input@)
            &&& is_frame_of(input@.take(used as int), payload@)
        }),
        input@.len() < 4 ==> read matches Ok(None),
        announces_too_much(input@) ==> (read matches Err(failure) && is_refusal(failure)),
        input@.len() >= 4 && announced(input@) <= 65536 && !begins_with_frame(input@)
            ==> (read matches Err(failure) && failure.kind == IoErrorKind::UnexpectedEof
            && failure.message@ == "early eof"@),
{
    if begins_with_frame(input@) {
        let n = announced(input@);
        assert(n == crate::network::frame::length_value(input@));
        if let Ok(Some((payload, used))) = read {
            assert(input@.skip(4 + n).len() == input@.skip(used as int).len());
            assert(input@.take(4 + n).skip(4) =~= payload@);
        }
    }
}

/// What was written is read back, and nothing after it is touched.
pub proof fn written_frames_are_read_back(
    payload: &[u8],
    frame: Vec<u8>,
    rest: Seq<u8>,
    input: &[u8],
    read: Result<Option<(Vec<u8>, usize)>, IoFailure>,
)
    requires
        call_ensures(write_frame, (payload,), Ok(frame)),
        input@ == frame@ + rest,
        call_ensures(read_frame, (input,), read),
    ensures
        read matches Ok(Some((bytes, used))) && bytes@ == payload@ && used == frame@.len(),
{
    payloads_are_written_as_frames(payload, Ok(frame));
    assert(announced(input@) == announced(frame@));
    streams_are_read_frame_by_frame(input, read);
    if let Ok(Some((bytes, used))) = read {
        assert(input@.take(used as int) =~= frame@);
    }
}

/// A serialized message travels as the frame of its bytes; a message that cannot be serialized,
/// or is too large, is refused with the reason.
pub proof fn messages_are_written_as_frames(
    serialized: Result<Vec<u8>, String>,
    frame: Result<Vec<u8>, IoFailure>,
)
    requires
        call_ensures(write_message, (serialized,), frame),
    ensures
        match serialized {
            Ok(payload) => if payload@.len() <= 65536 {
                frame matches Ok(bytes) && is_frame_of(bytes@, payload@)
            } else {
                frame matches Err(failure) && is_refusal(failure)
            },
            Err(reason) => frame matches Err(failure) && failure.kind == IoErrorKind::InvalidData
                && failure.message@ == reason@,
        },
{
    if let (Ok(payload), Ok(bytes)) = (serialized, frame) {
        assert(bytes@.skip(4) =~= payload@);
    }
}

/// A message is what the parser makes of the first payload, and of that alone. Where there is
/// no whole frame, a message is read as a frame is.
pub proof fn messages_are_parsed_payloads<T, F: Fn(&[u8]) -> Result<T, String>>(
    input: &[u8],
    parse: F,
    read: Result<Option<(T, usize)>, IoFailure>,
)
    requires
        call_ensures(read_message::<T, F>, (input, parse), read),
    ensures
        begins_with_frame(input@) ==> exists|payload: &[u8], parsed: Result<T, String>|
            {
                &&& is_frame_of(input@.take(4 + announced(input@)), payload@)
                &&& #[trigger] call_ensures(parse, (payload,), parsed)
                &&& match parsed {
                    Ok(message) => read matches Ok(Some((found, used))) && found == message && used
                        == 4 + announced(input@),
                    Err(reason) => read matches Err(failure) && failure.kind
                        == IoErrorKind::InvalidData && failure.message@ == reason@,
                }
            },
        input@.len() < 4 ==> read matches Ok(None),
        announces_too_much(input@) ==> (read matches Err(failure) && is_refusal(failure)),
        input@.len() >= 4 && announced(input@) <= 65536 && !begins_with_frame(input@)
            ==> (read matches Err(failure) && failure.kind == IoErrorKind::UnexpectedEof
            && failure.message@ == "early eof"@),
{
    if begins_with_frame(input@) {
        let n = announced(input@);
        assert(n == crate::network::frame::length_value(input@));
        let (payload, rest) = crate::network::frame::unframed(input@)->Ok_0->Some_0;
        let (bytes, parsed) = choose|bytes: &[u8], parsed: Result<T, String>|
            {
                &&& bytes@ == payload
                &&& #[trigger] call_ensures(parse, (bytes,), parsed)
                &&& match (parsed, read) {
                    (Ok(value), Ok(Some((read, used)))) => {
                        &&& read == value
                        &&& used <= input@.len()
                        &&& input@.skip(used as int) == rest
                    },
                    (Err(reason), Err(failure)) => failure@
                        == crate::network::frame::unacceptable(reason@),
                    _ => false,
                }
            };
        assert(input@.take(4 + n).skip(4) =~= bytes@);
        if let Ok(Some((_, used))) = read {
            assert(input@.skip(used as int).len() == input@.skip(4 + n).len());
        }
        assert(call_ensures(parse, (bytes,), parsed));
    }
}

/// Every input can be handed to a parser that takes every payload.
pub proof fn any_stream_can_be_read<T, F: Fn(&[u8]) -> Result<T, String>>(input: &[u8], parse: F)
    requires
        forall|payload: &[u8]| call_requires(parse, (payload,)),
    ensures
        call_requires(read_message::<T, F>, (input, parse)),
        call_requires(read_frame, (input,)),
        call_requires(write_frame, (input,)),
{
}

/// A reader starts with nothing, and takes bytes in at any time.
pub proof fn readers_start_empty(reader: FrameReader)
    requires
        call_ensures(FrameReader::new, (), reader),
    ensures
        reader@ == Seq::<u8>::empty(),
        call_requires(FrameReader::finish, (&reader,)),
{
}

pub(crate) proof fn frames_of_whole_streams(stream: Seq<u8>)
    ensures
        are_frames_of(
            stream,
            crate::network::reader::whole_frames(stream),
            crate::network::reader::left_over(stream),
        ),
        !begins_with_frame(crate::network::reader::left_over(stream)),
        crate::network::reader::whole_frames(stream).len() > 0 <==> begins_with_frame(stream),
    decreases stream.len(),
{
    if begins_with_frame(stream) {
        let n = announced(stream);
        let rest = stream.skip(4 + n);
        let payloads = crate::network::reader::whole_frames(stream);
        assert(n == crate::network::frame::length_value(stream));
        frames_of_whole_streams(rest);
        assert(payloads.skip(1) =~= crate::network::reader::whole_frames(rest));
        assert(payloads[0] == stream.subrange(4, 4 + n));
        assert(stream.take(4 + n).skip(4) =~= payloads[0]);
    }
}

/// However a stream is cut up, what comes out and what is held make up the stream: the payloads
/// that are handed out, framed, followed by the bytes that are held afterwards, are the bytes
/// that were held before followed by the new ones. No whole frame is ever held. A length over
/// 64 KiB is refused once it stands first, and then nothing is lost either.
pub proof fn readers_keep_every_byte(
    reader: &mut FrameReader,
    bytes: &[u8],
    payloads: Result<Vec<Vec<u8>>, IoFailure>,
)
    requires
        call_ensures(FrameReader::take_in, (reader, bytes), payloads),
    ensures
        !begins_with_frame(final(reader)@),
        payloads matches Ok(handed_out) ==> {
            &&& are_frames_of(
                old(reader)@ + bytes@,
                Seq::new(handed_out@.len(), |i: int| handed_out@[i]@),
                final(reader)@,
            )
            &&& handed_out@.len() == 0 ==> !announces_too_much(final(reader)@)
        },
        payloads matches Err(failure) ==> {
            &&& is_refusal(failure)
            &&& announces_too_much(old(reader)@ + bytes@)
            &&& final(reader)@ == old(reader)@ + bytes@
        },
{
    let stream = old(reader)@ + bytes@;
    frames_of_whole_streams(stream);
    frames_of_whole_streams(final(reader)@);
    if let Ok(handed_out) = payloads {
        assert(Seq::new(handed_out@.len(), |i: int| handed_out@[i]@)
            =~= crate::network::reader::payload_views(handed_out@));
        assert(crate::network::frame::length_value(final(reader)@) == announced(final(reader)@));
    }
    assert(crate::network::frame::length_value(stream) == announced(stream));
}

/// A stream may end where nothing, or less than a length, is held; inside a payload it may not.
pub proof fn streams_end_between_frames(reader: FrameReader, ended: Result<(), IoFailure>)
    requires
        !begins_with_frame(reader@),
        call_ensures(FrameReader::finish, (&reader,), ended),
    ensures
        call_requires(FrameReader::finish, (&reader,)),
        reader@.len() < 4 ==> ended is Ok,
        announces_too_much(reader@) ==> (ended matches Err(failure) && is_refusal(failure)),
        reader@.len() >= 4 && announced(reader@) <= 65536 ==> (ended matches Err(failure)
            && failure.kind == IoErrorKind::UnexpectedEof && failure.message@ == "early eof"@),
{
    frames_of_whole_streams(reader@);
    assert(crate::network::frame::length_value(reader@) == announced(reader@));
}

/// What has no condition can be asked for at any time.
pub proof fn anything_can_be_framed(
    length: usize,
    header: [u8; 4],
    serialized: Result<Vec<u8>, String>,
    reader: &mut FrameReader,
    bytes: &[u8],
)
    ensures
        call_requires(frame_header, (length,)),
        call_requires(frame_length, (header,)),
        call_requires(write_message, (serialized,)),
        call_requires(FrameReader::new, ()),
        call_requires(FrameReader::take_in, (reader, bytes)),
{
}

/// The limits of a frame: 64 KiB of payload behind four bytes.
pub proof fn frames_have_limits()
    ensures
        crate::network::frame::MAX_CONTROL_MESSAGE_LENGTH == 65536,
        crate::network::frame::FRAME_HEADER_LENGTH == 4,
{
}

} // verus!
