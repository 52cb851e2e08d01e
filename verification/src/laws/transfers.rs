//! Transfers: how an import goes on from step to step, and how its bytes are copied.

use vstd::prelude::*;

use crate::fault::{IoErrorKind, IoFailure};
use crate::image::error::ImageError;
use crate::image::files::{part_path, ready_to_replace};
use crate::image::hashing::content_digest;
use crate::image::import::{import_inputs, import_step, ImportEvent, ImportInputs, ImportStep};
use crate::image::prepared::{FlatRootfsRef, PreparedRootMetadata};
use crate::image::sparse::{SparseCopy, SparseWrite};

verus! {

/// An import works under the digests of the manifest and of the derivation, where both are
/// digests; the first that is none is named.
pub proof fn imports_work_under_two_digests(
    metadata: PreparedRootMetadata,
    inputs: Result<ImportInputs, ImageError>,
)
    requires
        call_ensures(import_inputs, (&metadata,), inputs),
    ensures
        ({
            let manifest = metadata.image.manifest_digest@;
            let derivation = metadata.root.derivation_digest@;
            &&& inputs is Ok <==> crate::laws::images::is_digest(manifest)
                && crate::laws::images::is_digest(derivation)
            &&& inputs matches Ok(found) ==> found.manifest_digest@ == manifest
                && found.derivation_digest@ == derivation
            &&& !crate::laws::images::is_digest(manifest) ==> crate::laws::images::is_refused(
                inputs,
                "invalid "@ + "image manifest digest"@ + ": "@ + manifest,
            )
            &&& crate::laws::images::is_digest(manifest) && !crate::laws::images::is_digest(
                derivation,
            ) ==> crate::laws::images::is_refused(
                inputs,
                "invalid "@ + "root derivation digest"@ + ": "@ + derivation,
            )
        }),
{
    crate::laws::images::digests_have_their_grammar(metadata.image.manifest_digest@);
    crate::laws::images::digests_have_their_grammar(metadata.root.derivation_digest@);
}

/// Whether a step can come to an event.
pub open spec fn may_come_to(step: ImportStep, event: ImportEvent) -> bool {
    ||| event is Failed
    ||| match step {
        ImportStep::ReadCurrentRef => event is CurrentRef,
        ImportStep::Decompress { .. } => event is Decompressed,
        ImportStep::Inspect { .. } => event is Inspected,
        ImportStep::PublishBlob | ImportStep::WriteFlatRef | ImportStep::WriteImageMetadata =>
            event is Completed,
        ImportStep::Done => false,
    }
}

/// Whatever a step can come to is taken in.
pub proof fn outcomes_of_steps_are_taken_in(
    step: ImportStep,
    root: &FlatRootfsRef,
    event: ImportEvent,
)
    requires
        may_come_to(step, event),
    ensures
        call_requires(import_step, (step, root, event)),
{
}

/// A step that could not be carried out ends the import with its own error, whichever it was.
pub proof fn failed_steps_end_imports(
    step: ImportStep,
    root: &FlatRootfsRef,
    error: ImageError,
    next: Result<ImportStep, ImageError>,
)
    requires
        call_ensures(import_step, (step, root, ImportEvent::Failed(error)), next),
    ensures
        next matches Err(reported) && crate::laws::images::same_error(reported, error),
{
    if let Err(reported) = next {
        crate::laws::images::errors_are_told_apart_by_their_views(reported, error);
    }
}

/// The payload is always decompressed, whether a root is there or not, and the import remembers
/// which.
pub proof fn payloads_are_always_decompressed(
    root: &FlatRootfsRef,
    present: bool,
    next: Result<ImportStep, ImageError>,
)
    requires
        call_ensures(
            import_step,
            (ImportStep::ReadCurrentRef, root, ImportEvent::CurrentRef(present)),
            next,
        ),
    ensures
        next == Ok::<ImportStep, ImageError>(ImportStep::Decompress { present }),
{
}

/// A payload goes on to be inspected exactly where it has the size and the digest that the root
/// says. Another size is refused first, by both numbers, and another digest by both digests.
pub proof fn payloads_are_what_the_root_says(
    root: &FlatRootfsRef,
    present: bool,
    digest: String,
    size: u64,
    next: Result<ImportStep, ImageError>,
)
    requires
        call_ensures(
            import_step,
            (
                ImportStep::Decompress { present },
                root,
                ImportEvent::Decompressed { digest, size },
            ),
            next,
        ),
    ensures
        size == root.virtual_size_bytes && digest@ == root.artifact_digest@ ==> next == Ok::<
            ImportStep,
            ImageError,
        >(ImportStep::Inspect { present }),
        size != root.virtual_size_bytes ==> exists|expected: Seq<char>, found: Seq<char>|
            {
                &&& crate::laws::texts::writes(expected, root.virtual_size_bytes as int)
                &&& crate::laws::texts::writes(found, size as int)
                &&& #[trigger] crate::laws::images::is_refused(
                    next,
                    "prepared root size mismatch: expected "@ + expected + ", got "@ + found,
                )
            },
        size == root.virtual_size_bytes && digest@ != root.artifact_digest@
            ==> crate::laws::images::is_refused(
            next,
            "prepared root digest mismatch: expected "@ + root.artifact_digest@ + ", got "@
                + digest@,
        ),
{
    let expected = crate::text::decimal_text(root.virtual_size_bytes as nat);
    let found = crate::text::decimal_text(size as nat);
    crate::laws::texts::decimals_are_written_numbers(root.virtual_size_bytes as nat);
    crate::laws::texts::decimals_are_written_numbers(size as nat);
    if size != root.virtual_size_bytes {
        assert(crate::laws::images::is_refused(
            next,
            "prepared root size mismatch: expected "@ + expected + ", got "@ + found,
        ));
    }
}

/// A filesystem in which something is wrong is refused with what is wrong. A sound one is
/// published where no root is there, if it is named by a digest; where one is there, it only
/// remains to write the image's metadata.
pub proof fn filesystems_are_inspected(
    root: &FlatRootfsRef,
    present: bool,
    fault: Option<String>,
    next: Result<ImportStep, ImageError>,
)
    requires
        call_ensures(
            import_step,
            (ImportStep::Inspect { present }, root, ImportEvent::Inspected(fault)),
            next,
        ),
    ensures
        fault matches Some(reason) ==> crate::laws::images::is_refused(
            next,
            "prepared root is not a valid ext4 artifact: "@ + reason@,
        ),
        fault is None && present ==> next == Ok::<ImportStep, ImageError>(
            ImportStep::WriteImageMetadata,
        ),
        fault is None && !present && crate::laws::images::is_digest(root.artifact_digest@) ==> next
            == Ok::<ImportStep, ImageError>(ImportStep::PublishBlob),
        fault is None && !present && !crate::laws::images::is_digest(root.artifact_digest@)
            ==> crate::laws::images::is_refused(
            next,
            "invalid "@ + "flat artifact digest"@ + ": "@ + root.artifact_digest@,
        ),
{
    crate::laws::images::digests_have_their_grammar(root.artifact_digest@);
}

/// A published payload is referred to, then the image's metadata is written, and then the import
/// is over.
pub proof fn writes_follow_one_another(
    step: ImportStep,
    root: &FlatRootfsRef,
    next: Result<ImportStep, ImageError>,
)
    requires
        call_ensures(import_step, (step, root, ImportEvent::Completed), next),
    ensures
        step == ImportStep::PublishBlob ==> next == Ok::<ImportStep, ImageError>(
            ImportStep::WriteFlatRef,
        ),
        step == ImportStep::WriteFlatRef ==> next == Ok::<ImportStep, ImageError>(
            ImportStep::WriteImageMetadata,
        ),
        step == ImportStep::WriteImageMetadata ==> next == Ok::<ImportStep, ImageError>(
            ImportStep::Done,
        ),
{
}

/// A copy starts with nothing copied, under the limit that it was given.
pub proof fn copies_start_empty(expected_size: u64, copy: SparseCopy, written: u64)
    requires
        call_ensures(SparseCopy::new, (expected_size,), copy),
        call_ensures(SparseCopy::written, (&copy,), written),
    ensures
        copy.copied() == Seq::<u8>::empty(),
        copy.limit() == expected_size,
        written == 0,
        call_requires(SparseCopy::written, (&copy,)),
{
}

/// A chunk is taken in, after the bytes before it, exactly where the copy stays within its
/// limit; it is stored where any of its bytes is not zero and skipped otherwise. A chunk that
/// does not fit is refused by the limit, and leaves the copy as it was. The limit never changes.
pub proof fn chunks_are_taken_in_within_the_limit(
    copy: &mut SparseCopy,
    chunk: &[u8],
    write: Result<SparseWrite, ImageError>,
)
    requires
        call_ensures(SparseCopy::accept, (copy, chunk), write),
    ensures
        final(copy).limit() == old(copy).limit(),
        write is Ok <==> old(copy).copied().len() + chunk@.len() <= old(copy).limit(),
        write is Ok ==> final(copy).copied() == old(copy).copied() + chunk@,
        write == Ok::<SparseWrite, ImageError>(SparseWrite::Store) ==> exists|i: int|
            0 <= i < chunk@.len() && #[trigger] chunk@[i] != 0,
        write == Ok::<SparseWrite, ImageError>(SparseWrite::Skip) ==> forall|i: int|
            0 <= i < chunk@.len() ==> #[trigger] chunk@[i] == 0,
        write is Err ==> final(copy).copied() == old(copy).copied(),
        write is Err ==> exists|limit: Seq<char>|
            crate::laws::texts::writes(limit, old(copy).limit() as int)
                && #[trigger] crate::laws::images::is_refused(
                write,
                "prepared root exceeds its declared size of "@ + limit + " bytes"@,
            ),
{
    let limit = crate::text::decimal_text(old(copy).limit() as nat);
    crate::laws::texts::decimals_are_written_numbers(old(copy).limit() as nat);
    if write is Err {
        assert(crate::laws::images::is_refused(
            write,
            "prepared root exceeds its declared size of "@ + limit + " bytes"@,
        ));
    }
}

/// A copy that has taken a chunk in can take the next one in, tell how much it has copied, and be
/// finished.
pub proof fn copies_can_go_on(
    copy: &mut SparseCopy,
    chunk: &[u8],
    write: Result<SparseWrite, ImageError>,
    written: u64,
)
    requires
        call_ensures(SparseCopy::accept, (copy, chunk), write),
        call_ensures(SparseCopy::written, (&*final(copy),), written),
    ensures
        call_requires(SparseCopy::written, (&*final(copy),)),
        written == final(copy).copied().len(),
        final(copy).copied().len() < 0x2000_0000_0000_0000 ==> call_requires(
            SparseCopy::finish,
            (*final(copy),),
        ),
{
}

/// A finished copy gives the digest of all the bytes that it took in, the same that they have as
/// a whole, and their number.
pub proof fn copies_give_the_digest_of_all_bytes(
    copy: SparseCopy,
    finished: (String, u64),
    data: &[u8],
    digest: String,
)
    requires
        call_ensures(SparseCopy::finish, (copy,), finished),
        data@ == copy.copied(),
        call_ensures(content_digest, (data,), digest),
    ensures
        finished.0@ == digest@,
        finished.1 == data@.len(),
{
}

/// A file is written beside its place, under its own path with `.part` after it.
pub proof fn files_are_written_beside_their_place(path: &[u8], part: Vec<u8>)
    requires
        call_ensures(part_path, (path,), part),
    ensures
        part@ == path@ + vstd::utf8::encode_utf8(".part"@),
{
    crate::image::files::temporary_files_differ(path@, path@);
}

/// A file may be moved to its place where the older one was removed or none was there; any other
/// failure to remove it is reported with the path.
pub proof fn files_replace_older_ones(
    path: &[u8],
    removal: Result<(), IoFailure>,
    ready: Result<(), ImageError>,
)
    requires
        call_ensures(ready_to_replace, (path, removal), ready),
    ensures
        ready is Ok <==> (removal matches Err(failure) ==> failure.kind == IoErrorKind::NotFound),
        ready is Err ==> match removal {
            Ok(_) => false,
            Err(failure) => ready matches Err(ImageError::Cache { path: named, source })
                && named@ == path@ && source.kind == failure.kind && source.message@
                == failure.message@,
        },
{
}

/// A copy that was just made can take a chunk in, and a copy tells how much it has copied.
pub proof fn fresh_copies_take_chunks_in(
    expected_size: u64,
    fresh: SparseCopy,
    copy: &mut SparseCopy,
    chunk: &[u8],
    told: SparseCopy,
    written: u64,
)
    requires
        call_ensures(SparseCopy::new, (expected_size,), fresh),
        *old(copy) == fresh,
        call_ensures(SparseCopy::written, (&told,), written),
    ensures
        call_requires(SparseCopy::accept, (copy, chunk)),
        written == told.copied().len(),
{
}

/// A copy that has taken a chunk in, or refused it, can be given another one.
pub proof fn copies_take_chunk_after_chunk(
    copy: &mut SparseCopy,
    chunk: &[u8],
    write: Result<SparseWrite, ImageError>,
    later: &mut SparseCopy,
    next: &[u8],
)
    requires
        call_ensures(SparseCopy::accept, (copy, chunk), write),
        *old(later) == *final(copy),
    ensures
        call_requires(SparseCopy::accept, (later, next)),
{
}

/// What has no condition can be asked for at any time; bytes are copied a mebibyte at a time.
pub proof fn anything_can_be_transferred(
    metadata: &PreparedRootMetadata,
    expected_size: u64,
    path: &[u8],
    removal: Result<(), IoFailure>,
)
    ensures
        call_requires(import_inputs, (metadata,)),
        call_requires(SparseCopy::new, (expected_size,)),
        call_requires(part_path, (path,)),
        call_requires(ready_to_replace, (path, removal)),
        crate::image::sparse::COPY_BUFFER_BYTES == 1024 * 1024,
{
}

} // verus!
