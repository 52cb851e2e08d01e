//! Files of a bundle: each is written beside its place and then moved there.

use vstd::prelude::*;

use crate::fault::{IoErrorKind, IoFailure};
use crate::image::error::{cache_error, ImageError, ImageErrorView};

verus! {

/// Whether a file may be moved to a path, given what removing an older file from there came
/// to: it may where nothing stood there.
pub fn ready_to_replace(path: &[u8], removal: Result<(), IoFailure>) -> (ready: Result<
    (),
    ImageError,
>)
    ensures
        ImageError::verdict(ready) == match removal {
            Ok(_) => Ok(()),
            Err(failure) => if failure.kind == IoErrorKind::NotFound {
                Ok(())
            } else {
                Err(ImageErrorView::Cache { path: path@, source: failure@ })
            },
        },
{
    match removal {
        Ok(_) => Ok(()),
        Err(failure) => {
            if failure.kind == IoErrorKind::NotFound {
                Ok(())
            } else {
                Err(cache_error(path, failure))
            }
        },
    }
}

/// The path of the temporary file that stands in for a file while it is written.
pub open spec fn part_of(path: Seq<u8>) -> Seq<u8> {
    path + seq![46u8, 112u8, 97u8, 114u8, 116u8]
}

/// The path of the temporary file that stands in for a file while it is written: the file's
/// own path with `.part` at its end.
pub fn part_path(path: &[u8]) -> (part: Vec<u8>)
    ensures
        part@ == part_of(path@),
{
    let mut part: Vec<u8> = vstd::slice::slice_to_vec(path);
    part.push(46u8);
    part.push(112u8);
    part.push(97u8);
    part.push(114u8);
    part.push(116u8);
    assert(part@ =~= part_of(path@));
    part
}

/// Different files have different temporary files, and none is its own.
pub proof fn temporary_files_differ(a: Seq<u8>, b: Seq<u8>)
    ensures
        part_of(a) != a,
        a != b ==> part_of(a) != part_of(b),
        part_of(a) == a + vstd::utf8::encode_utf8(".part"@),
{
    assert(part_of(a).len() != a.len());
    assert(part_of(a).take(part_of(a).len() - 5) =~= a);
    assert(part_of(b).take(part_of(b).len() - 5) =~= b);
    reveal_strlit(".part");
    vstd::utf8::is_ascii_chars_encode_utf8(".part"@);
    assert(vstd::utf8::encode_utf8(".part"@) =~= seq![46u8, 112u8, 97u8, 114u8, 116u8]);
}

} // verus!
