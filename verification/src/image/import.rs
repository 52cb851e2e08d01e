//! Import of a prepared root: in which order it is taken over, and what stops it.
//!
//! An import first looks for a root that is already there. In any case the payload is
//! decompressed, held against the metadata and inspected; only where no root is there is it
//! published and referred to. The image's own metadata is written last.

use vstd::prelude::*;
use vstd::string::*;

use crate::image::digest::{parse_digest, Digest};
use crate::image::error::{ImageError, ImageErrorView, Verdict};
use crate::image::prepared::{FlatRootfsRef, MetadataView, PreparedRootMetadata, RootView};
use crate::text::{decimal, same_text};

verus! {

/// What an import locks and works under.
pub struct ImportInputs {
    /// Digest of the image's manifest.
    pub manifest_digest: Digest,
    /// Digest of everything that the root was made from.
    pub derivation_digest: Digest,
}

/// The verdict on the digests that an import works under.
pub open spec fn inputs_verdict(metadata: MetadataView) -> Verdict {
    if !Digest::accepts(metadata.image.manifest_digest) {
        Err(Digest::invalid("image manifest digest"@, metadata.image.manifest_digest))
    } else if !Digest::accepts(metadata.root.derivation_digest) {
        Err(Digest::invalid("root derivation digest"@, metadata.root.derivation_digest))
    } else {
        Ok(())
    }
}

/// The digests that an import works under.
pub fn import_inputs(metadata: &PreparedRootMetadata) -> (inputs: Result<ImportInputs, ImageError>)
    ensures
        match inputs {
            Ok(found) => {
                &&& inputs_verdict(metadata@) is Ok
                &&& found.manifest_digest@ == metadata@.image.manifest_digest
                &&& found.derivation_digest@ == metadata@.root.derivation_digest
            },
            Err(error) => inputs_verdict(metadata@) == Err::<(), ImageErrorView>(error@),
        },
{
    match parse_digest(metadata.image.manifest_digest.as_str(), "image manifest digest") {
        Err(error) => Err(error),
        Ok(manifest_digest) => match parse_digest(
            metadata.root.derivation_digest.as_str(),
            "root derivation digest",
        ) {
            Err(error) => Err(error),
            Ok(derivation_digest) => Ok(ImportInputs { manifest_digest, derivation_digest }),
        },
    }
}

/// What an import does next.
#[derive(Clone, Copy, Debug, PartialEq, Eq, Structural)]
pub enum ImportStep {
    /// Look for a root that is already there.
    ReadCurrentRef,
    /// Decompress the payload to a file that nobody else sees.
    Decompress {
        /// Whether a root is already there.
        present: bool,
    },
    /// Inspect the filesystem in that file.
    Inspect {
        /// Whether a root is already there.
        present: bool,
    },
    /// Publish that file under its digest.
    PublishBlob,
    /// Write the reference to the published root.
    WriteFlatRef,
    /// Write the image's metadata.
    WriteImageMetadata,
    /// Nothing: the import is over.
    Done,
}

/// What a step of an import came to.
pub enum ImportEvent {
    /// Whether a root is already there.
    CurrentRef(bool),
    /// The payload was decompressed to this many bytes with this digest.
    Decompressed {
        /// Digest of the bytes.
        digest: String,
        /// Number of the bytes.
        size: u64,
    },
    /// The filesystem was inspected, and what is wrong with it if anything is.
    Inspected(Option<String>),
    /// The file was published, the reference to it or the image's metadata was written.
    Completed,
    /// The step could not be carried out.
    Failed(ImageError),
}

/// What an [`ImportEvent`] says.
pub enum ImportEventView {
    /// Whether a root is already there.
    CurrentRef(bool),
    /// The payload was decompressed to this many bytes with this digest.
    Decompressed {
        /// Digest of the bytes.
        digest: Seq<char>,
        /// Number of the bytes.
        size: u64,
    },
    /// The filesystem was inspected, and what is wrong with it if anything is.
    Inspected(Option<Seq<char>>),
    /// The file was published, the reference to it or the image's metadata was written.
    Completed,
    /// The step could not be carried out.
    Failed(ImageErrorView),
}

impl View for ImportEvent {
    type V = ImportEventView;

    open spec fn view(&self) -> ImportEventView {
        match self {
            ImportEvent::CurrentRef(present) => ImportEventView::CurrentRef(*present),
            ImportEvent::Decompressed { digest, size } => ImportEventView::Decompressed {
                digest: digest@,
                size: *size,
            },
            ImportEvent::Inspected(None) => ImportEventView::Inspected(None),
            ImportEvent::Inspected(Some(reason)) => ImportEventView::Inspected(Some(reason@)),
            ImportEvent::Completed => ImportEventView::Completed,
            ImportEvent::Failed(error) => ImportEventView::Failed(error@),
        }
    }
}

impl ImportStep {
    /// Whether a step can come to this.
    pub open spec fn expects(self, event: ImportEventView) -> bool {
        event is Failed || match self {
            ImportStep::ReadCurrentRef => event is CurrentRef,
            ImportStep::Decompress { .. } => event is Decompressed,
            ImportStep::Inspect { .. } => event is Inspected,
            ImportStep::PublishBlob => event is Completed,
            ImportStep::WriteFlatRef => event is Completed,
            ImportStep::WriteImageMetadata => event is Completed,
            ImportStep::Done => false,
        }
    }

    /// Whether a root was found at the start, as far as a step remembers it.
    pub open spec fn found(self) -> bool {
        match self {
            ImportStep::Decompress { present } => present,
            ImportStep::Inspect { present } => present,
            _ => false,
        }
    }

    /// The step that follows, or the error that ends the import.
    pub open spec fn next(self, root: RootView, event: ImportEventView) -> Result<
        ImportStep,
        ImageErrorView,
    > {
        match event {
            ImportEventView::Failed(error) => Err(error),
            ImportEventView::CurrentRef(present) => Ok(ImportStep::Decompress { present }),
            ImportEventView::Decompressed { digest, size } => {
                if size != root.virtual_size_bytes {
                    Err(
                        ImageErrorView::ConfigParse(
                            "prepared root size mismatch: expected "@ + crate::text::decimal_text(
                                root.virtual_size_bytes as nat,
                            ) + ", got "@ + crate::text::decimal_text(size as nat),
                        ),
                    )
                } else if digest != root.artifact_digest {
                    Err(
                        ImageErrorView::ConfigParse(
                            "prepared root digest mismatch: expected "@ + root.artifact_digest
                                + ", got "@ + digest,
                        ),
                    )
                } else {
                    Ok(ImportStep::Inspect { present: self.found() })
                }
            },
            ImportEventView::Inspected(Some(reason)) => Err(
                ImageErrorView::ConfigParse(
                    "prepared root is not a valid ext4 artifact: "@ + reason,
                ),
            ),
            ImportEventView::Inspected(None) => if self.found() {
                Ok(ImportStep::WriteImageMetadata)
            } else if Digest::accepts(root.artifact_digest) {
                Ok(ImportStep::PublishBlob)
            } else {
                Err(Digest::invalid("flat artifact digest"@, root.artifact_digest))
            },
            ImportEventView::Completed => Ok(
                match self {
                    ImportStep::PublishBlob => ImportStep::WriteFlatRef,
                    ImportStep::WriteFlatRef => ImportStep::WriteImageMetadata,
                    _ => ImportStep::Done,
                },
            ),
        }
    }
}

impl ImportStep {
    fn found_before(&self) -> (present: bool)
        ensures
            present == self.found(),
    {
        match self {
            ImportStep::Decompress { present } => *present,
            ImportStep::Inspect { present } => *present,
            _ => false,
        }
    }
}

/// Takes in what a step came to, and says which step follows.
pub fn import_step(step: ImportStep, root: &FlatRootfsRef, event: ImportEvent) -> (next: Result<
    ImportStep,
    ImageError,
>)
    requires
        step.expects(event@),
    ensures
        match (next, step.next(root@, event@)) {
            (Ok(found), Ok(expected)) => found == expected,
            (Err(error), Err(expected)) => error@ == expected,
            _ => false,
        },
{
    match event {
        ImportEvent::Failed(error) => Err(error),
        ImportEvent::CurrentRef(present) => Ok(ImportStep::Decompress { present }),
        ImportEvent::Decompressed { digest, size } => {
            if size != root.virtual_size_bytes {
                let mut message: String = "prepared root size mismatch: expected ".to_owned();
                message.append(decimal(root.virtual_size_bytes).as_str());
                message.append(", got ");
                message.append(decimal(size).as_str());
                return Err(ImageError::ConfigParse(message));
            }
            if !same_text(digest.as_str(), root.artifact_digest.as_str()) {
                let mut message: String = "prepared root digest mismatch: expected ".to_owned();
                message.append(root.artifact_digest.as_str());
                message.append(", got ");
                message.append(digest.as_str());
                return Err(ImageError::ConfigParse(message));
            }
            Ok(ImportStep::Inspect { present: step.found_before() })
        },
        ImportEvent::Inspected(Some(reason)) => {
            let mut message: String = "prepared root is not a valid ext4 artifact: ".to_owned();
            message.append(reason.as_str());
            Err(ImageError::ConfigParse(message))
        },
        ImportEvent::Inspected(None) => {
            if step.found_before() {
                return Ok(ImportStep::WriteImageMetadata);
            }
            match parse_digest(root.artifact_digest.as_str(), "flat artifact digest") {
                Ok(_) => Ok(ImportStep::PublishBlob),
                Err(error) => Err(error),
            }
        },
        ImportEvent::Completed => {
            match step {
                ImportStep::PublishBlob => Ok(ImportStep::WriteFlatRef),
                ImportStep::WriteFlatRef => Ok(ImportStep::WriteImageMetadata),
                _ => Ok(ImportStep::Done),
            }
        },
    }
}

/// Where an import is after these events, one for each step in turn, unless it has ended
/// with an error or a step cannot come to such an event.
pub open spec fn progress(root: RootView, events: Seq<ImportEventView>) -> Option<ImportStep>
    decreases events.len(),
{
    if events.len() == 0 {
        Some(ImportStep::ReadCurrentRef)
    } else {
        match progress(root, events.drop_last()) {
            Some(step) => if step.expects(events.last()) {
                match step.next(root, events.last()) {
                    Ok(next) => Some(next),
                    Err(_) => None,
                }
            } else {
                None
            },
            None => None,
        }
    }
}

/// The events of an import that takes a root over: none is there, the payload comes out as the
/// metadata says and holds a sound filesystem, and each write succeeds.
pub open spec fn taken_over(root: RootView) -> Seq<ImportEventView> {
    seq![
        ImportEventView::CurrentRef(false),
        ImportEventView::Decompressed {
            digest: root.artifact_digest,
            size: root.virtual_size_bytes,
        },
        ImportEventView::Inspected(None),
        ImportEventView::Completed,
        ImportEventView::Completed,
        ImportEventView::Completed,
    ]
}

/// The events of an import that finds a root already there: the payload comes out as the
/// metadata says and holds a sound filesystem all the same.
pub open spec fn found_there(root: RootView) -> Seq<ImportEventView> {
    seq![
        ImportEventView::CurrentRef(true),
        ImportEventView::Decompressed {
            digest: root.artifact_digest,
            size: root.virtual_size_bytes,
        },
        ImportEventView::Inspected(None),
        ImportEventView::Completed,
    ]
}

/// A payload is only published, and a root only referred to, where none was there and the
/// payload's size and digest are those of the metadata and its filesystem is sound. In
/// particular a corrupt payload leaves the cache without a reference.
pub proof fn only_sound_payloads_are_published(root: RootView, events: Seq<ImportEventView>)
    ensures
        progress(root, events) == Some(ImportStep::PublishBlob) ==> events == taken_over(root).take(
            3,
        ),
        progress(root, events) == Some(ImportStep::WriteFlatRef) ==> events == taken_over(
            root,
        ).take(4),
{
    import_history(root, events);
}

/// No import succeeds with its payload unread: one that is over without an error has
/// decompressed the payload to the size and digest of the metadata and has found its filesystem
/// sound, whether or not a root was there.
pub proof fn finished_imports_have_read_the_payload(root: RootView, events: Seq<ImportEventView>)
    requires
        progress(root, events) == Some(ImportStep::Done),
    ensures
        events.contains(
            ImportEventView::Decompressed {
                digest: root.artifact_digest,
                size: root.virtual_size_bytes,
            },
        ),
        events.contains(ImportEventView::Inspected(None)),
{
    import_history(root, events);
    assert(events[1] == taken_over(root)[1]);
    assert(events[2] == taken_over(root)[2]);
}

/// The image's metadata is written last, and only where the payload is sound and a root is in
/// place: one was there already, or one has been published and referred to.
pub proof fn image_metadata_is_written_last(root: RootView, events: Seq<ImportEventView>)
    ensures
        progress(root, events) == Some(ImportStep::WriteImageMetadata) ==> {
            ||| events == found_there(root).take(3)
            ||| events == taken_over(root).take(5)
        },
        progress(root, events) == Some(ImportStep::Done) ==> {
            ||| events == found_there(root)
            ||| events == taken_over(root)
        },
{
    import_history(root, events);
}

/// A sound payload is imported, whether or not a root is already there.
pub proof fn sound_imports_finish(root: RootView)
    requires
        Digest::accepts(root.artifact_digest),
    ensures
        progress(root, found_there(root)) == Some(ImportStep::Done),
        progress(root, taken_over(root)) == Some(ImportStep::Done),
{
    let there = found_there(root);
    assert(progress(root, Seq::<ImportEventView>::empty()) == Some(ImportStep::ReadCurrentRef));
    assert(there.take(1).drop_last() =~= Seq::<ImportEventView>::empty());
    assert(progress(root, there.take(1)) == Some(ImportStep::Decompress { present: true }));
    assert(there.take(2).drop_last() =~= there.take(1));
    assert(progress(root, there.take(2)) == Some(ImportStep::Inspect { present: true }));
    assert(there.take(3).drop_last() =~= there.take(2));
    assert(progress(root, there.take(3)) == Some(ImportStep::WriteImageMetadata));
    assert(there.drop_last() =~= there.take(3));
    let events = taken_over(root);
    assert(events.take(1).drop_last() =~= Seq::<ImportEventView>::empty());
    assert(progress(root, events.take(1)) == Some(ImportStep::Decompress { present: false }));
    assert(events.take(2).drop_last() =~= events.take(1));
    assert(progress(root, events.take(2)) == Some(ImportStep::Inspect { present: false }));
    assert(events.take(3).drop_last() =~= events.take(2));
    assert(progress(root, events.take(3)) == Some(ImportStep::PublishBlob));
    assert(events.take(4).drop_last() =~= events.take(3));
    assert(progress(root, events.take(4)) == Some(ImportStep::WriteFlatRef));
    assert(events.take(5).drop_last() =~= events.take(4));
    assert(progress(root, events.take(5)) == Some(ImportStep::WriteImageMetadata));
    assert(events.drop_last() =~= events.take(5));
}

/// What has happened by each step.
proof fn import_history(root: RootView, events: Seq<ImportEventView>)
    ensures
        match progress(root, events) {
            None => true,
            Some(ImportStep::ReadCurrentRef) => events == taken_over(root).take(0),
            Some(ImportStep::Decompress { present }) => events == if present {
                found_there(root).take(1)
            } else {
                taken_over(root).take(1)
            },
            Some(ImportStep::Inspect { present }) => events == if present {
                found_there(root).take(2)
            } else {
                taken_over(root).take(2)
            },
            Some(ImportStep::PublishBlob) => events == taken_over(root).take(3),
            Some(ImportStep::WriteFlatRef) => events == taken_over(root).take(4),
            Some(ImportStep::WriteImageMetadata) => {
                ||| events == found_there(root).take(3)
                ||| events == taken_over(root).take(5)
            },
            Some(ImportStep::Done) => {
                ||| events == found_there(root)
                ||| events == taken_over(root)
            },
        },
    decreases events.len(),
{
    if events.len() == 0 {
        assert(events =~= taken_over(root).take(0));
    } else {
        let earlier = events.drop_last();
        import_history(root, earlier);
        assert(events =~= earlier.push(events.last()));
        if let Some(step) = progress(root, events) {
            let expected = taken_over(root);
            assert(expected.take(0).push(expected[0]) =~= expected.take(1));
            assert(expected.take(1).push(expected[1]) =~= expected.take(2));
            assert(expected.take(2).push(expected[2]) =~= expected.take(3));
            assert(expected.take(3).push(expected[3]) =~= expected.take(4));
            assert(expected.take(4).push(expected[4]) =~= expected.take(5));
            assert(expected.take(5).push(expected[5]) =~= expected);
            let there = found_there(root);
            assert(expected.take(0).push(there[0]) =~= there.take(1));
            assert(there.take(1).push(there[1]) =~= there.take(2));
            assert(there.take(2).push(there[2]) =~= there.take(3));
            assert(there.take(3).push(there[3]) =~= there);
        }
    }
}

/// A corrupt payload is never accepted: an import whose payload comes out with another size or
/// digest than the metadata says is over, whatever was there before and whatever happens after.
pub proof fn corrupt_payloads_are_refused(
    root: RootView,
    events: Seq<ImportEventView>,
    digest: Seq<char>,
    size: u64,
)
    requires
        events.len() >= 2,
        events[1] == (ImportEventView::Decompressed { digest, size }),
        digest != root.artifact_digest || size != root.virtual_size_bytes,
    ensures
        progress(root, events) is None,
{
    import_history(root, events);
    if progress(root, events) is Some {
        assert(events[1] == taken_over(root)[1] || events[1] == found_there(root)[1]);
    }
}

/// What passed validation can be imported: none of the digests that an import reads is
/// refused.
pub proof fn validated_bundles_have_digests(
    metadata: MetadataView,
    reference: crate::image::prepared::ReferenceView,
    platform: crate::image::prepared::PlatformView,
    materializer_abi: u32,
    reading: crate::image::metadata::ConfigReadingView,
    derived: Seq<char>,
)
    requires
        metadata.verdict(reference, platform, materializer_abi, reading, derived) is Ok,
        Digest::accepts(derived),
    ensures
        inputs_verdict(metadata) is Ok,
        metadata.image.diff_ids_verdict() is Ok,
        Digest::accepts(metadata.root.artifact_digest),
{
}

} // verus!
