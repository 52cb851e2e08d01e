//! Content digests: an algorithm, a colon and an encoded hash.
//!
//! The grammar is this library's choice: any text counts that has something on both sides of
//! its first colon. Neither the names of algorithms nor the lengths of hashes are checked.

use vstd::prelude::*;
use vstd::string::*;

use crate::image::error::{ImageError, ImageErrorView};

verus! {

/// A content digest.
#[derive(Debug, PartialEq, Eq)]
pub struct Digest {
    algorithm: String,
    encoded: String,
}

impl View for Digest {
    type V = Seq<char>;

    closed spec fn view(&self) -> Seq<char> {
        self.algorithm@ + seq![':'] + self.encoded@
    }
}

impl Digest {
    /// The algorithm and the hash are there, and no colon stands in the algorithm's name.
    #[verifier::type_invariant]
    spec fn wf(self) -> bool {
        &&& self.algorithm@.len() > 0
        &&& self.encoded@.len() > 0
        &&& !self.algorithm@.contains(':')
    }

    /// Whether the first colon of a text is at `i`, with something on both sides of it.
    pub open spec fn splits_at(text: Seq<char>, i: int) -> bool {
        &&& 0 < i < text.len() - 1
        &&& text[i] == ':'
        &&& forall|j: int| 0 <= j < i ==> text[j] != ':'
    }

    /// Whether a text is a digest, by this library's own grammar.
    pub open spec fn accepts(text: Seq<char>) -> bool {
        exists|i: int| Digest::splits_at(text, i)
    }

    /// The error that answers a text which is no digest.
    pub open spec fn invalid(label: Seq<char>, text: Seq<char>) -> ImageErrorView {
        ImageErrorView::ConfigParse("invalid "@ + label + ": "@ + text)
    }

    /// The texts of a list of digests.
    pub open spec fn texts(digests: Seq<Digest>) -> Seq<Seq<char>> {
        digests.map_values(|digest: Digest| digest@)
    }

    /// Reads a digest.
    pub fn parse(text: &str) -> (digest: Option<Digest>)
        ensures
            digest is Some <==> Digest::accepts(text@),
            digest matches Some(d) ==> d@ == text@,
    {
        let length: usize = text.unicode_len();
        let mut i: usize = 0;
        for c in iter: text.chars()
            invariant
                iter.seq() == text@,
                i == iter.index(),
                length == text@.len(),
                forall|j: int| 0 <= j < i ==> text@[j] != ':',
        {
            if c == ':' {
                if i == 0 || i + 1 >= length {
                    proof {
                        assert forall|k: int| !Digest::splits_at(text@, k) by {
                            if Digest::splits_at(text@, k) {
                                assert(text@[i as int] == ':');
                            }
                        }
                    }
                    return None;
                }
                assert(Digest::splits_at(text@, i as int));
                let algorithm: String = text.substring_char(0, i).to_owned();
                let encoded: String = text.substring_char(i + 1, length).to_owned();
                let digest: Digest = Digest { algorithm, encoded };
                assert(digest@ =~= text@);
                return Some(digest);
            }
            i = i + 1;
        }
        None
    }

    /// The text of the digest. It reads back as the digest.
    pub fn text(&self) -> (text: String)
        ensures
            text@ == self@,
            Digest::accepts(text@),
    {
        proof {
            use_type_invariant(self);
            let i = self.algorithm@.len() as int;
            assert forall|j: int| 0 <= j < i implies self@[j] != ':' by {
                assert(self.algorithm@.contains(self.algorithm@[j]));
            }
            assert(Digest::splits_at(self@, i));
        }
        let mut text: String = self.algorithm.clone();
        text.append(":");
        text.append(self.encoded.as_str());
        proof {
            reveal_strlit(":");
            assert(":"@ =~= seq![':']);
        }
        text
    }
}

impl Clone for Digest {
    fn clone(&self) -> (copy: Self)
        ensures
            copy@ == self@,
    {
        proof {
            use_type_invariant(self);
        }
        Digest { algorithm: self.algorithm.clone(), encoded: self.encoded.clone() }
    }
}

/// Reads a digest that goes by a label in error messages.
pub fn parse_digest(value: &str, label: &str) -> (digest: Result<Digest, ImageError>)
    ensures
        match digest {
            Ok(d) => Digest::accepts(value@) && d@ == value@,
            Err(error) => !Digest::accepts(value@) && error@ == Digest::invalid(label@, value@),
        },
{
    match Digest::parse(value) {
        Some(digest) => Ok(digest),
        None => {
            let mut message: String = "invalid ".to_owned();
            message.append(label);
            message.append(": ");
            message.append(value);
            Err(ImageError::ConfigParse(message))
        },
    }
}

/// The written form of a hash is a digest.
pub proof fn hashes_are_written_as_digests(hash: Seq<u8>)
    requires
        hash.len() > 0,
    ensures
        Digest::accepts(crate::image::hashing::digest_text(hash)),
{
    reveal_strlit("sha256:");
    assert(Digest::splits_at(crate::image::hashing::digest_text(hash), 6));
}

} // verus!
