//! What an import leaves behind in a cache, from the bundle that an export wrote.
//!
//! The cache is modelled by what can be read from it: the bytes of published roots, the
//! references to them and the metadata of images. Writing to it always succeeds here; what a
//! failed write does to an import stands with [`crate::image::import`].

use vstd::prelude::*;

use crate::image::error::ImageErrorView;
use crate::image::import::{ImportEventView, ImportStep};
use crate::image::metadata::{ConfigReadingView, ImageView};
use crate::image::prepared::{MetadataView, PlatformView, ReferenceView, RootView};

verus! {

/// What can be read from a cache.
#[verifier::ext_equal]
pub struct StoreView {
    /// The bytes of the published roots, by their digests.
    pub blobs: Map<Seq<char>, Seq<u8>>,
    /// The references to published roots, by the digests of their manifests.
    pub roots: Map<Seq<char>, RootView>,
    /// The metadata of images, by their references.
    pub images: Map<Seq<char>, ImageView>,
}

/// A bundle that is to be imported, with what its payload turns out to be.
pub struct Bundle {
    /// What the metadata document says.
    pub metadata: MetadataView,
    /// The bytes that the payload decompresses to, or why it does not decompress.
    pub payload: Result<Seq<u8>, ImageErrorView>,
    /// What is wrong with the filesystem in some bytes, if anything is.
    pub fault: spec_fn(Seq<u8>) -> Option<Seq<char>>,
}

/// What is asked for, and what the bundle's image documents come to.
pub struct Request {
    /// The reference that is asked for.
    pub reference: ReferenceView,
    /// The platform that is asked for.
    pub platform: PlatformView,
    /// The version of the materializer.
    pub materializer_abi: u32,
    /// What reading the image's configuration document comes to.
    pub reading: ConfigReadingView,
    /// What the image's inputs derive to.
    pub derived: Seq<char>,
}

impl StoreView {
    /// A cache that nothing was written to.
    pub open spec fn fresh() -> Self {
        StoreView { blobs: Map::empty(), roots: Map::empty(), images: Map::empty() }
    }

    /// Whether a root that was made from the same inputs is there.
    pub open spec fn has_root_for(self, metadata: MetadataView) -> bool {
        &&& self.roots.contains_key(metadata.image.manifest_digest)
        &&& self.roots[metadata.image.manifest_digest].derivation_digest
            == metadata.root.derivation_digest
    }

    /// The cache once a step of an import has been carried out.
    pub open spec fn after(self, step: ImportStep, reference: Seq<char>, bundle: Bundle) -> Self {
        let metadata = bundle.metadata;
        match step {
            ImportStep::PublishBlob => StoreView {
                blobs: self.blobs.insert(metadata.root.artifact_digest, bundle.payload->Ok_0),
                ..self
            },
            ImportStep::WriteFlatRef => StoreView {
                roots: self.roots.insert(metadata.image.manifest_digest, metadata.root),
                ..self
            },
            ImportStep::WriteImageMetadata => StoreView {
                images: self.images.insert(reference, metadata.image),
                ..self
            },
            _ => self,
        }
    }
}

impl Bundle {
    /// What carrying out a step of an import comes to.
    pub open spec fn observed(self, store: StoreView, step: ImportStep) -> ImportEventView {
        let size = self.metadata.root.virtual_size_bytes;
        match step {
            ImportStep::ReadCurrentRef => ImportEventView::CurrentRef(
                store.has_root_for(self.metadata),
            ),
            ImportStep::Decompress { .. } => match self.payload {
                Err(error) => ImportEventView::Failed(error),
                Ok(bytes) => if bytes.len() > size {
                    ImportEventView::Failed(crate::image::sparse::too_long(size))
                } else {
                    ImportEventView::Decompressed {
                        digest: crate::image::hashing::digest_text(
                            crate::image::hashing::sha256(bytes),
                        ),
                        size: bytes.len() as u64,
                    }
                },
            },
            ImportStep::Inspect { .. } => ImportEventView::Inspected(
                (self.fault)(self.payload->Ok_0),
            ),
            _ => ImportEventView::Completed,
        }
    }

    /// Whether the payload holds what the metadata promises.
    pub open spec fn is_sound(self) -> bool {
        self.payload matches Ok(bytes) && {
            &&& bytes.len() == self.metadata.root.virtual_size_bytes
            &&& crate::image::hashing::digest_text(crate::image::hashing::sha256(bytes))
                == self.metadata.root.artifact_digest
            &&& (self.fault)(bytes) is None
        }
    }

    /// The verdict of a validation on the bundle.
    pub open spec fn verdict(self, request: Request) -> crate::image::error::Verdict {
        self.metadata.verdict(
            request.reference,
            request.platform,
            request.materializer_abi,
            request.reading,
            request.derived,
        )
    }
}

/// How many steps may follow a step.
pub open spec fn steps_left(step: ImportStep) -> nat {
    match step {
        ImportStep::ReadCurrentRef => 6,
        ImportStep::Decompress { .. } => 5,
        ImportStep::Inspect { .. } => 4,
        ImportStep::PublishBlob => 3,
        ImportStep::WriteFlatRef => 2,
        ImportStep::WriteImageMetadata => 1,
        ImportStep::Done => 0,
    }
}

/// What an import comes to from a step on, and the cache that it leaves behind.
pub open spec fn carried_on(
    store: StoreView,
    step: ImportStep,
    reference: Seq<char>,
    bundle: Bundle,
) -> (Result<(), ImageErrorView>, StoreView)
    decreases steps_left(step),
{
    if step == ImportStep::Done {
        (Ok(()), store)
    } else {
        match step.next(bundle.metadata.root, bundle.observed(store, step)) {
            Err(error) => (Err(error), store),
            Ok(next) => carried_on(
                store.after(step, reference, bundle),
                next,
                reference,
                bundle,
            ),
        }
    }
}

/// What the import of a bundle comes to, and the cache that it leaves behind: the bundle is
/// validated, its digests are read, and then it is taken over step by step.
pub open spec fn imported(store: StoreView, request: Request, bundle: Bundle) -> (
    Result<MetadataView, ImageErrorView>,
    StoreView,
) {
    if let Err(error) = bundle.verdict(request) {
        (Err(error), store)
    } else if let Err(error) = crate::image::import::inputs_verdict(bundle.metadata) {
        (Err(error), store)
    } else if let Err(error) = bundle.metadata.image.diff_ids_verdict() {
        (Err(error), store)
    } else {
        match carried_on(store, ImportStep::ReadCurrentRef, request.reference.text, bundle) {
            (Ok(_), after) => (Ok(bundle.metadata), after),
            (Err(error), after) => (Err(error), after),
        }
    }
}

/// What an import of a payload comes to once the cache has been looked at.
proof fn payloads_are_taken_over(store: StoreView, reference: Seq<char>, bundle: Bundle)
    ensures
        ({
            let (result, after) = carried_on(store, ImportStep::ReadCurrentRef, reference, bundle);
            let named = crate::image::digest::Digest::accepts(
                bundle.metadata.root.artifact_digest,
            );
            &&& result is Ok <==> bundle.is_sound() && (store.has_root_for(bundle.metadata)
                || named)
            &&& after == if result is Ok {
                store.with_bundle(reference, bundle)
            } else {
                store
            }
        }),
{
    reveal_with_fuel(carried_on, 7);
}

/// An import succeeds only with what the bundle promises: one that returns metadata has
/// validated it, and its payload decompresses to exactly as many bytes as the metadata says,
/// with the digest that it says and a sound filesystem in them. This holds of a cache with any
/// contents.
pub proof fn imports_validate_the_bundles_bytes(
    store: StoreView,
    request: Request,
    bundle: Bundle,
)
    requires
        imported(store, request, bundle).0 is Ok,
    ensures
        imported(store, request, bundle).0 == Ok::<_, ImageErrorView>(bundle.metadata),
        bundle.verdict(request) is Ok,
        bundle.is_sound(),
{
    payloads_are_taken_over(store, request.reference.text, bundle);
}

impl StoreView {
    /// The cache with a bundle's image, and with its root and its bytes where no root that was
    /// made from the same inputs is there.
    pub open spec fn with_bundle(self, reference: Seq<char>, bundle: Bundle) -> Self {
        let metadata = bundle.metadata;
        let images = self.images.insert(reference, metadata.image);
        if self.has_root_for(metadata) {
            StoreView { images, ..self }
        } else {
            StoreView {
                blobs: self.blobs.insert(metadata.root.artifact_digest, bundle.payload->Ok_0),
                roots: self.roots.insert(metadata.image.manifest_digest, metadata.root),
                images,
            }
        }
    }
}

/// An import into a cache with any contents succeeds exactly where the bundle is accepted and its
/// payload is sound. It then gives the bundle's metadata back and adds the image to the cache,
/// and the root with its bytes unless one that was made from the same inputs is there; everything
/// else stays as it was.
pub proof fn sound_bundles_are_imported(store: StoreView, request: Request, bundle: Bundle)
    requires
        crate::image::digest::Digest::accepts(request.derived),
    ensures
        imported(store, request, bundle).0 is Ok <==> bundle.verdict(request) is Ok
            && bundle.is_sound(),
        bundle.verdict(request) is Ok && bundle.is_sound() ==> {
            &&& imported(store, request, bundle).0 == Ok::<_, ImageErrorView>(bundle.metadata)
            &&& imported(store, request, bundle).1 == store.with_bundle(
                request.reference.text,
                bundle,
            )
            &&& imported(store, request, bundle).1.has_root_for(bundle.metadata)
        },
{
    if bundle.verdict(request) is Ok {
        crate::image::import::validated_bundles_have_digests(
            bundle.metadata,
            request.reference,
            request.platform,
            request.materializer_abi,
            request.reading,
            request.derived,
        );
    }
    payloads_are_taken_over(store, request.reference.text, bundle);
}

/// A refused import changes nothing: no bytes are published, no reference and no metadata is
/// written.
pub proof fn refused_imports_change_nothing(store: StoreView, request: Request, bundle: Bundle)
    requires
        imported(store, request, bundle).0 is Err,
    ensures
        imported(store, request, bundle).1 == store,
{
    payloads_are_taken_over(store, request.reference.text, bundle);
}

/// What was exported can be imported: the bundle of an export, with a payload that decompresses
/// to the bytes of the exported root, is imported into a fresh cache. The import gives the
/// exported metadata back with the exported root, and the cache then holds the root, the image
/// and the bytes, all as they were exported.
pub proof fn exported_bundles_are_imported(
    request: Request,
    image: ImageView,
    root: Option<RootView>,
    bundle: Bundle,
    bytes: Seq<u8>,
)
    requires
        crate::image::digest::Digest::accepts(request.derived),
        crate::image::export::export_result(
            request.reference,
            request.platform,
            image,
            root,
            request.materializer_abi,
            request.reading,
            request.derived,
        ) == Ok::<_, ImageErrorView>(bundle.metadata),
        bundle.payload == Ok::<_, ImageErrorView>(bytes),
        bundle.is_sound(),
    ensures
        bundle.verdict(request) is Ok,
        crate::image::import::inputs_verdict(bundle.metadata) is Ok,
        root == Some(bundle.metadata.root),
        image == bundle.metadata.image,
        ({
            let (result, after) = imported(StoreView::fresh(), request, bundle);
            let metadata = bundle.metadata;
            &&& result == Ok::<_, ImageErrorView>(metadata)
            &&& after.roots.contains_key(metadata.image.manifest_digest)
            &&& after.roots[metadata.image.manifest_digest] == metadata.root
            &&& after.images.contains_key(request.reference.text)
            &&& after.images[request.reference.text] == metadata.image
            &&& after.blobs.contains_key(metadata.root.artifact_digest)
            &&& after.blobs[metadata.root.artifact_digest] == bytes
            &&& bytes.len() == metadata.root.virtual_size_bytes
            &&& (bundle.fault)(bytes) is None
        }),
{
    crate::image::import::validated_bundles_have_digests(
        bundle.metadata,
        request.reference,
        request.platform,
        request.materializer_abi,
        request.reading,
        request.derived,
    );
    payloads_are_taken_over(StoreView::fresh(), request.reference.text, bundle);
}

/// Importing a bundle again succeeds as well, and leaves the cache as the first import did.
pub proof fn imports_can_be_repeated(store: StoreView, request: Request, bundle: Bundle)
    requires
        imported(store, request, bundle).0 is Ok,
    ensures
        imported(imported(store, request, bundle).1, request, bundle) == imported(
            store,
            request,
            bundle,
        ),
{
    payloads_are_taken_over(store, request.reference.text, bundle);
    let once = imported(store, request, bundle).1;
    payloads_are_taken_over(once, request.reference.text, bundle);
    assert(once.has_root_for(bundle.metadata));
    assert(imported(once, request, bundle).1 =~= once);
}

} // verus!
