//! Sparse copy of a root filesystem image: runs of zero bytes are skipped, not written.

use vstd::prelude::*;
use vstd::string::*;

use crate::image::error::{ImageError, ImageErrorView};
use crate::image::hashing::{
    hasher_finalize, hasher_new, hasher_update, render_digest, Hasher, HASH_LENGTH_LIMIT,
};
use crate::text::decimal;

verus! {

/// Number of bytes that are copied at a time.
pub const COPY_BUFFER_BYTES: usize = 1024 * 1024;

/// What is to be done with a chunk in the destination file.
#[derive(Clone, Copy, Debug, PartialEq, Eq, Structural)]
pub enum SparseWrite {
    /// Move ahead by the length of the chunk.
    Skip,
    /// Write the chunk.
    Store,
}

/// Whether every byte is zero.
pub open spec fn all_zero(chunk: Seq<u8>) -> bool {
    forall|i: int| 0 <= i < chunk.len() ==> chunk[i] == 0
}

/// What is to be done with a chunk: one of zeros only is skipped.
pub open spec fn sparse_write(chunk: Seq<u8>) -> SparseWrite {
    if all_zero(chunk) {
        SparseWrite::Skip
    } else {
        SparseWrite::Store
    }
}

/// The error that answers an image longer than it should be.
pub open spec fn too_long(expected_size: u64) -> ImageErrorView {
    ImageErrorView::ConfigParse(
        "prepared root exceeds its declared size of "@ + crate::text::decimal_text(
            expected_size as nat,
        ) + " bytes"@,
    )
}

/// A copy in progress.
pub struct SparseCopy {
    hasher: Hasher,
    written: u64,
    expected_size: u64,
}

impl SparseCopy {
    /// The bytes copied so far.
    pub closed spec fn copied(self) -> Seq<u8> {
        crate::image::hashing::absorbed(self.hasher)
    }

    /// The largest number of bytes to copy.
    pub closed spec fn limit(self) -> u64 {
        self.expected_size
    }

    /// The byte count is that of the bytes copied, and within the limit.
    pub closed spec fn wf(self) -> bool {
        &&& self.written == self.copied().len()
        &&& self.written <= self.expected_size
    }

    /// A copy of at most `expected_size` bytes that has copied nothing yet.
    pub fn new(expected_size: u64) -> (copy: Self)
        ensures
            copy.wf(),
            copy.copied() == Seq::<u8>::empty(),
            copy.limit() == expected_size,
    {
        SparseCopy { hasher: hasher_new(), written: 0, expected_size }
    }

    /// Number of bytes copied so far.
    pub fn written(&self) -> (written: u64)
        requires
            self.wf(),
        ensures
            written == self.copied().len(),
            written <= self.limit(),
    {
        self.written
    }

    /// Takes the next chunk in and says what is to be done with it, unless the copy would get
    /// longer than it may.
    pub fn accept(&mut self, chunk: &[u8]) -> (write: Result<SparseWrite, ImageError>)
        requires
            old(self).wf(),
        ensures
            final(self).wf(),
            final(self).limit() == old(self).limit(),
            match write {
                Ok(write) => {
                    &&& old(self).copied().len() + chunk@.len() <= old(self).limit()
                    &&& write == sparse_write(chunk@)
                    &&& final(self).copied() == old(self).copied() + chunk@
                },
                Err(error) => {
                    &&& old(self).copied().len() + chunk@.len() > old(self).limit()
                    &&& error@ == too_long(old(self).limit())
                    &&& final(self).copied() == old(self).copied()
                },
            },
    {
        let count: u64 = chunk.len() as u64;
        let next_size: u64 = self.written.saturating_add(count);
        if next_size > self.expected_size || self.expected_size - self.written < count {
            let mut message: String = "prepared root exceeds its declared size of ".to_owned();
            message.append(decimal(self.expected_size).as_str());
            message.append(" bytes");
            return Err(ImageError::ConfigParse(message));
        }
        hasher_update(&mut self.hasher, chunk);
        self.written = next_size;
        if is_all_zero(chunk) {
            Ok(SparseWrite::Skip)
        } else {
            Ok(SparseWrite::Store)
        }
    }

    /// The digest and the number of the bytes copied.
    pub fn finish(self) -> (out: (String, u64))
        requires
            self.wf(),
            self.copied().len() < HASH_LENGTH_LIMIT,
        ensures
            out.0@ == crate::image::hashing::digest_text(
                crate::image::hashing::sha256(self.copied()),
            ),
            out.1 == self.copied().len(),
            out.1 <= self.limit(),
    {
        let written: u64 = self.written;
        let hash: Vec<u8> = hasher_finalize(self.hasher);
        (render_digest(hash.as_slice()), written)
    }
}

fn is_all_zero(chunk: &[u8]) -> (zero: bool)
    ensures
        zero == all_zero(chunk@),
{
    for i in 0..chunk.len()
        invariant
            forall|j: int| 0 <= j < i ==> chunk@[j] == 0,
    {
        if chunk[i] != 0 {
            return false;
        }
    }
    true
}

/// A file that is being written: its contents and the place of the next write.
pub struct FileView {
    /// The bytes of the file.
    pub contents: Seq<u8>,
    /// Where the next write goes.
    pub position: nat,
}

/// Contents brought to a length: cut off, or filled up with zeros.
pub open spec fn with_length(contents: Seq<u8>, length: nat) -> Seq<u8> {
    Seq::new(
        length,
        |i: int|
            if i < contents.len() {
                contents[i]
            } else {
                0u8
            },
    )
}

impl FileView {
    /// The file after moving ahead.
    pub open spec fn skipped(self, count: nat) -> Self {
        FileView { contents: self.contents, position: self.position + count }
    }

    /// The file after a write: a gap before it reads as zeros.
    pub open spec fn stored(self, bytes: Seq<u8>) -> Self {
        let end = self.position + bytes.len();
        let length = if self.contents.len() < end {
            end
        } else {
            self.contents.len()
        };
        let filled = with_length(self.contents, length);
        FileView {
            contents: filled.take(self.position as int) + bytes + filled.skip(end as int),
            position: end,
        }
    }
}

/// All chunks, one after another.
pub open spec fn joined(chunks: Seq<Seq<u8>>) -> Seq<u8>
    decreases chunks.len(),
{
    if chunks.len() == 0 {
        Seq::empty()
    } else {
        joined(chunks.drop_last()) + chunks.last()
    }
}

/// The file that a sparse copy of these chunks leaves behind, before its length is set.
pub open spec fn sparse_file(chunks: Seq<Seq<u8>>) -> FileView
    decreases chunks.len(),
{
    if chunks.len() == 0 {
        FileView { contents: Seq::empty(), position: 0 }
    } else {
        let before = sparse_file(chunks.drop_last());
        match sparse_write(chunks.last()) {
            SparseWrite::Skip => before.skipped(chunks.last().len()),
            SparseWrite::Store => before.stored(chunks.last()),
        }
    }
}

/// A sparse copy is exact: once its length is set to the number of bytes copied, the file
/// holds just the bytes of the chunks.
pub proof fn sparse_copies_are_exact(chunks: Seq<Seq<u8>>)
    ensures
        sparse_file(chunks).position == joined(chunks).len(),
        sparse_file(chunks).contents.len() <= joined(chunks).len(),
        with_length(sparse_file(chunks).contents, joined(chunks).len()) == joined(chunks),
    decreases chunks.len(),
{
    if chunks.len() == 0 {
        assert(with_length(sparse_file(chunks).contents, 0) =~= joined(chunks));
    } else {
        let earlier = chunks.drop_last();
        let chunk = chunks.last();
        sparse_copies_are_exact(earlier);
        let before = sparse_file(earlier);
        let prefix = joined(earlier);
        assert forall|i: int| 0 <= i < prefix.len() implies prefix[i] == (if i
            < before.contents.len() {
            before.contents[i]
        } else {
            0u8
        }) by {
            assert(prefix[i] == with_length(before.contents, prefix.len())[i]);
        }
        let after = with_length(sparse_file(chunks).contents, joined(chunks).len());
        assert(after =~= joined(chunks));
    }
}

/// Every chunk of an image within the limit is accepted: at each chunk, the bytes before it and
/// the chunk together are within the limit.
pub proof fn images_within_the_limit_are_accepted(chunks: Seq<Seq<u8>>, limit: u64, k: int)
    requires
        joined(chunks).len() <= limit,
        0 <= k < chunks.len(),
    ensures
        joined(chunks.take(k)).len() + chunks[k].len() <= limit,
        joined(chunks.take(k + 1)) == joined(chunks.take(k)) + chunks[k],
    decreases chunks.len(),
{
    assert(chunks.take(k + 1).drop_last() =~= chunks.take(k));
    if k + 1 == chunks.len() {
        assert(chunks.take(k + 1) =~= chunks);
    } else {
        let earlier = chunks.drop_last();
        images_within_the_limit_are_accepted(earlier, limit, k);
        assert(earlier.take(k) =~= chunks.take(k));
    }
}

} // verus!
