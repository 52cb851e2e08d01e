//! Reading frames from a stream that arrives in pieces.
//!
//! A piece may end anywhere, inside a length or inside a payload. What has arrived of a frame
//! is held until the rest of it comes, so nothing is lost however a stream is cut up.

use vstd::prelude::*;

use crate::fault::{IoErrorKind, IoFailure};
use crate::network::frame::{read_frame, FRAME_HEADER_LENGTH, MAX_CONTROL_MESSAGE_LENGTH};

verus! {

/// The payloads of the whole frames that a stream begins with, in order.
pub open spec fn whole_frames(stream: Seq<u8>) -> Seq<Seq<u8>>
    decreases stream.len(),
{
    match crate::network::frame::unframed(stream) {
        Ok(Some((payload, rest))) => seq![payload] + whole_frames(rest),
        _ => Seq::empty(),
    }
}

/// What follows the whole frames that a stream begins with.
pub open spec fn left_over(stream: Seq<u8>) -> Seq<u8>
    decreases stream.len(),
{
    match crate::network::frame::unframed(stream) {
        Ok(Some((_, rest))) => left_over(rest),
        _ => stream,
    }
}

/// Whether bytes begin with a length over the limit.
pub open spec fn oversized(bytes: Seq<u8>) -> bool {
    &&& bytes.len() >= FRAME_HEADER_LENGTH
    &&& crate::network::frame::length_value(bytes) > MAX_CONTROL_MESSAGE_LENGTH
}

/// The frames of some payloads, one after another.
pub open spec fn all_framed(payloads: Seq<Seq<u8>>) -> Seq<u8>
    decreases payloads.len(),
{
    if payloads.len() == 0 {
        Seq::empty()
    } else {
        crate::network::frame::framed(payloads[0])->Ok_0 + all_framed(payloads.skip(1))
    }
}

/// Whether every payload is within the limit.
pub open spec fn all_bounded(payloads: Seq<Seq<u8>>) -> bool {
    forall|i: int|
        0 <= i < payloads.len() ==> #[trigger] payloads[i].len() <= MAX_CONTROL_MESSAGE_LENGTH
}

/// What a list of payloads holds.
pub open spec fn payload_views(payloads: Seq<Vec<u8>>) -> Seq<Seq<u8>> {
    payloads.map_values(|payload: Vec<u8>| payload@)
}

/// A reader of frames, with what has arrived of the next one.
#[derive(Debug)]
pub struct FrameReader {
    held: Vec<u8>,
}

impl View for FrameReader {
    type V = Seq<u8>;

    /// The bytes that are held.
    closed spec fn view(&self) -> Seq<u8> {
        self.held@
    }
}

impl FrameReader {
    /// No whole frame is held.
    pub open spec fn wf(self) -> bool {
        whole_frames(self@).len() == 0
    }

    /// A reader at the start of a stream.
    pub fn new() -> (reader: Self)
        ensures
            reader@ == Seq::<u8>::empty(),
            reader.wf(),
    {
        FrameReader { held: Vec::new() }
    }

    /// Takes in the next bytes of the stream, and hands out the payloads of all the frames that
    /// are whole now. A length over the limit is refused, once every frame before it has been
    /// handed out, and from then on.
    pub fn take_in(&mut self, bytes: &[u8]) -> (payloads: Result<Vec<Vec<u8>>, IoFailure>)
        ensures
            final(self).wf(),
            match payloads {
                Ok(payloads) => {
                    &&& payload_views(payloads@) == whole_frames(old(self)@ + bytes@)
                    &&& final(self)@ == left_over(old(self)@ + bytes@)
                    &&& payloads@.len() > 0 || !oversized(final(self)@)
                },
                Err(failure) => {
                    &&& whole_frames(old(self)@ + bytes@).len() == 0
                    &&& oversized(old(self)@ + bytes@)
                    &&& failure@ == crate::network::frame::too_large()
                    &&& final(self)@ == old(self)@ + bytes@
                },
            },
    {
        let ghost stream = self@ + bytes@;
        self.held.extend_from_slice(bytes);
        let mut payloads: Vec<Vec<u8>> = Vec::new();
        let mut used: usize = 0;
        let total: usize = self.held.len();
        assert(stream.skip(0) =~= stream);
        assert(self.held@ =~= stream);
        loop
            invariant
                stream == old(self)@ + bytes@,
                self.held@ == stream,
                total == stream.len(),
                used <= total,
                whole_frames(stream) == payload_views(payloads@) + whole_frames(
                    stream.skip(used as int),
                ),
                left_over(stream) == left_over(stream.skip(used as int)),
                used == 0 <==> payloads@.len() == 0,
            ensures
                whole_frames(stream) == payload_views(payloads@),
                left_over(stream) == stream.skip(used as int),
                payloads@.len() == 0 ==> !oversized(stream),
            decreases total - used,
        {
            let rest: &[u8] = vstd::slice::slice_subrange(self.held.as_slice(), used, total);
            assert(rest@ =~= stream.skip(used as int));
            match read_frame(rest) {
                Ok(Some((payload, taken))) => {
                    proof {
                        crate::network::frame::payloads_are_bounded(rest@);
                        let after = rest@.skip(taken as int);
                        assert(crate::network::frame::unframed(rest@)->Ok_0->Some_0.1 == after);
                        assert(after =~= stream.skip(used + taken));
                        assert(whole_frames(rest@) == seq![payload@] + whole_frames(after));
                        assert(payload_views(payloads@.push(payload)) =~= payload_views(
                            payloads@,
                        ).push(payload@));
                        assert(payload_views(payloads@) + (seq![payload@] + whole_frames(after))
                            =~= payload_views(payloads@).push(payload@) + whole_frames(after));
                    }
                    payloads.push(payload);
                    used = used + taken;
                },
                Ok(None) => {
                    assert(whole_frames(stream) =~= payload_views(payloads@));
                    break;
                },
                Err(failure) => {
                    assert(whole_frames(stream) =~= payload_views(payloads@));
                    if failure.kind == IoErrorKind::InvalidData && payloads.len() == 0 {
                        assert(rest@ =~= stream);
                        return Err(failure);
                    }
                    break;
                },
            }
        }
        let rest: Vec<u8> = vstd::slice::slice_to_vec(
            vstd::slice::slice_subrange(self.held.as_slice(), used, total),
        );
        assert(rest@ =~= stream.skip(used as int));
        proof {
            streams_are_frames_and_a_rest(stream);
        }
        self.held = rest;
        Ok(payloads)
    }

    /// What it means that the stream ends here: it must not end inside a payload.
    pub fn finish(&self) -> (ended: Result<(), IoFailure>)
        requires
            self.wf(),
        ensures
            match crate::network::frame::unframed(self@) {
                Ok(_) => ended is Ok,
                Err(expected) => ended matches Err(failure) && failure@ == expected,
            },
    {
        match read_frame(self.held.as_slice()) {
            Ok(_) => Ok(()),
            Err(failure) => Err(failure),
        }
    }
}

/// A stream is the frames of the payloads that come out of it, each within the limit, followed
/// by what is held, and no whole frame is held back.
pub proof fn streams_are_frames_and_a_rest(stream: Seq<u8>)
    ensures
        all_framed(whole_frames(stream)) + left_over(stream) == stream,
        all_bounded(whole_frames(stream)),
        whole_frames(left_over(stream)).len() == 0,
        left_over(left_over(stream)) == left_over(stream),
    decreases stream.len(),
{
    match crate::network::frame::unframed(stream) {
        Ok(Some((payload, rest))) => {
            crate::network::frame::payloads_are_bounded(stream);
            streams_are_frames_and_a_rest(rest);
            let payloads = whole_frames(stream);
            assert(payloads.skip(1) =~= whole_frames(rest));
            assert(all_framed(payloads) + left_over(stream) =~= crate::network::frame::framed(
                payload,
            )->Ok_0 + (all_framed(whole_frames(rest)) + left_over(rest)));
            assert forall|i: int| 0 <= i < payloads.len() implies #[trigger] payloads[i].len()
                <= MAX_CONTROL_MESSAGE_LENGTH by {
                if i > 0 {
                    assert(payloads[i] == whole_frames(rest)[i - 1]);
                }
            }
        },
        _ => {
            assert(all_framed(whole_frames(stream)) + left_over(stream) =~= stream);
        },
    }
}

/// It does not matter where a stream is cut: what comes out of the first piece and then, with
/// what was held, of the second, is what comes out of the whole.
pub proof fn cuts_do_not_matter(first: Seq<u8>, second: Seq<u8>)
    ensures
        whole_frames(first + second) == whole_frames(first) + whole_frames(
            left_over(first) + second,
        ),
        left_over(first + second) == left_over(left_over(first) + second),
    decreases first.len(),
{
    match crate::network::frame::unframed(first) {
        Ok(Some((payload, rest))) => {
            let n = crate::network::frame::length_value(first);
            let whole = first + second;
            assert(crate::network::frame::length_value(whole) == n);
            assert(whole.subrange(4, 4 + n) =~= payload);
            assert(whole.skip(4 + n) =~= rest + second);
            cuts_do_not_matter(rest, second);
            assert(whole_frames(whole) =~= whole_frames(first) + whole_frames(
                left_over(first) + second,
            ));
        },
        _ => {
            assert(whole_frames(first + second) =~= whole_frames(first) + whole_frames(
                left_over(first) + second,
            ));
        },
    }
}

/// The frames of some payloads come out as those payloads, in order, and leave what follows.
pub proof fn payloads_come_out(payloads: Seq<Seq<u8>>, rest: Seq<u8>)
    requires
        all_bounded(payloads),
    ensures
        whole_frames(all_framed(payloads) + rest) == payloads + whole_frames(rest),
        left_over(all_framed(payloads) + rest) == left_over(rest),
    decreases payloads.len(),
{
    let stream = all_framed(payloads) + rest;
    if payloads.len() == 0 {
        assert(stream =~= rest);
        assert(payloads + whole_frames(rest) =~= whole_frames(rest));
    } else {
        let later = payloads.skip(1);
        let follows = all_framed(later) + rest;
        assert forall|i: int| 0 <= i < later.len() implies #[trigger] later[i].len()
            <= MAX_CONTROL_MESSAGE_LENGTH by {
            assert(later[i] == payloads[i + 1]);
        }
        payloads_come_out(later, rest);
        assert(stream =~= crate::network::frame::framed(payloads[0])->Ok_0 + follows);
        assert(payloads[0].len() <= MAX_CONTROL_MESSAGE_LENGTH);
        crate::network::frame::frames_read_back(payloads[0], follows);
        assert(payloads =~= seq![payloads[0]] + later);
        assert(whole_frames(stream) =~= payloads + whole_frames(rest));
    }
}

/// Of a peer that writes frames, what has come out at any time is a prefix of what it wrote,
/// each payload whole, once and in order, and nothing of it is refused.
pub proof fn parts_of_a_stream_read_as_a_prefix(
    arrived: Seq<u8>,
    missing: Seq<u8>,
    payloads: Seq<Seq<u8>>,
)
    requires
        all_bounded(payloads),
        arrived + missing == all_framed(payloads),
    ensures
        whole_frames(arrived).is_prefix_of(payloads),
        !oversized(left_over(arrived)),
{
    cuts_do_not_matter(arrived, missing);
    payloads_come_out(payloads, Seq::empty());
    assert(all_framed(payloads) + Seq::<u8>::empty() =~= all_framed(payloads));
    assert(payloads + whole_frames(Seq::<u8>::empty()) =~= payloads);
    let held = left_over(arrived);
    if oversized(held) {
        crate::network::frame::oversized_lengths_are_refused(held, missing);
        assert(left_over(held + missing).len() > 0);
    }
}

/// A length over the limit ends what comes out of a stream, whatever follows it.
pub proof fn nothing_follows_an_oversized_length(stream: Seq<u8>, more: Seq<u8>)
    requires
        oversized(left_over(stream)),
    ensures
        whole_frames(stream + more) == whole_frames(stream),
        oversized(left_over(stream + more)),
{
    cuts_do_not_matter(stream, more);
    let held = left_over(stream);
    crate::network::frame::oversized_lengths_are_refused(held, more);
    assert(crate::network::frame::length_value(held + more)
        == crate::network::frame::length_value(held));
    assert(whole_frames(stream) + Seq::<Seq<u8>>::empty() =~= whole_frames(stream));
}

} // verus!
