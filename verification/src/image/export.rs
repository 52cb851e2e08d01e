//! Export of a prepared root: what it needs, and the bundle's metadata.

use vstd::prelude::*;
use vstd::string::*;

use crate::image::digest::{parse_digest, Digest};
use crate::image::error::{ImageError, ImageErrorView, Verdict};
use crate::image::hashing::HASH_LENGTH_LIMIT;
use crate::image::metadata::{
    layer_diff_ids, CachedImageMetadata, ConfigReading, ConfigReadingView, ImageConfig, ImageView,
};
use crate::image::prepared::{
    platform_name, validate_metadata, validate_pinned_reference, FlatRootfsRef, MetadataView,
    Platform, PlatformView, PreparedRootMetadata, PreparedRootPlatform, Reference, ReferenceView,
    RootView, PREPARED_ROOT_SCHEMA,
};

verus! {

/// What a flat root is looked up by, with the cached image that it belongs to.
pub struct ExportInputs {
    /// The cached image.
    pub image: CachedImageMetadata,
    /// Digest of the image's manifest.
    pub manifest_digest: Digest,
    /// Digests of the image's uncompressed layers.
    pub diff_ids: Vec<Digest>,
}

/// The verdict on what a reference has cached: there must be an image, the reference must be
/// pinned by its manifest, and its layers must be named by digests.
pub open spec fn inputs_verdict(reference: ReferenceView, image: Option<ImageView>) -> Verdict {
    match image {
        None => ImageErrorView::refused("image metadata is not cached for "@ + reference.text),
        Some(image) => if !Digest::accepts(image.manifest_digest) {
            Err(Digest::invalid("image manifest digest"@, image.manifest_digest))
        } else if reference.pinned_verdict(image.manifest_digest) is Err {
            reference.pinned_verdict(image.manifest_digest)
        } else {
            image.diff_ids_verdict()
        },
    }
}

/// The metadata of the bundle that is exported for a reference and a platform.
pub open spec fn exported(
    reference: ReferenceView,
    platform: PlatformView,
    image: ImageView,
    root: RootView,
) -> MetadataView {
    MetadataView {
        schema: PREPARED_ROOT_SCHEMA,
        source_reference: reference.text,
        platform,
        image,
        root,
    }
}

/// The error that answers an image whose flat root does not exist for a platform.
pub open spec fn not_materialized(image: ImageView, platform: PlatformView) -> ImageErrorView {
    ImageErrorView::ConfigParse(
        "flat rootfs is not materialized for "@ + image.manifest_digest + " on "@
            + platform.name(),
    )
}

/// The bundle that an export comes to, given the flat root, the version of the materializer,
/// what reading the image's configuration document comes to and what its inputs derive to.
pub open spec fn export_result(
    reference: ReferenceView,
    platform: PlatformView,
    image: ImageView,
    root: Option<RootView>,
    materializer_abi: u32,
    reading: ConfigReadingView,
    derived: Seq<char>,
) -> Result<MetadataView, ImageErrorView> {
    match root {
        None => Err(not_materialized(image, platform)),
        Some(root) => {
            let metadata = exported(reference, platform, image, root);
            match metadata.verdict(reference, platform, materializer_abi, reading, derived) {
                Ok(_) => Ok(metadata),
                Err(error) => Err(error),
            }
        },
    }
}

/// What a flat root is looked up by, for the image that a reference has cached.
pub fn export_inputs(
    reference: &Reference,
    image: Option<CachedImageMetadata>,
) -> (inputs: Result<ExportInputs, ImageError>)
    ensures
        match inputs {
            Ok(found) => {
                &&& image == Some(found.image)
                &&& inputs_verdict(reference@, Some(found.image@)) is Ok
                &&& found.manifest_digest@ == found.image@.manifest_digest
                &&& Digest::texts(found.diff_ids@) == found.image@.diff_ids()
            },
            Err(error) => inputs_verdict(
                reference@,
                match image {
                    Some(cached) => Some(cached@),
                    None => None,
                },
            ) == Err::<(), ImageErrorView>(error@),
        },
{
    let image: CachedImageMetadata = match image {
        Some(image) => image,
        None => {
            let mut message: String = "image metadata is not cached for ".to_owned();
            message.append(reference.text.as_str());
            return Err(ImageError::ConfigParse(message));
        },
    };
    let manifest_digest: Digest = match parse_digest(
        image.manifest_digest.as_str(),
        "image manifest digest",
    ) {
        Ok(digest) => digest,
        Err(error) => {
            return Err(error);
        },
    };
    if let Err(error) = validate_pinned_reference(reference, &manifest_digest) {
        return Err(error);
    }
    match layer_diff_ids(&image) {
        Ok(diff_ids) => Ok(ExportInputs { image, manifest_digest, diff_ids }),
        Err(error) => Err(error),
    }
}

fn copy_variant(variant: &Option<String>) -> (copy: Option<String>)
    ensures
        Reference::optional(copy) == Reference::optional(*variant),
{
    match variant {
        Some(text) => Some(text.clone()),
        None => None,
    }
}

/// The metadata of the bundle to export, given the flat root that was found. A bundle that an
/// import for the same reference and platform would refuse is not exported.
pub fn assemble_export<
    C: Fn(&[u8]) -> ConfigReading,
    D: Fn(&Digest, &Vec<Digest>, &Platform) -> Digest,
>(
    inputs: ExportInputs,
    reference: &Reference,
    platform: &Platform,
    root: Option<FlatRootfsRef>,
    materializer_abi: u32,
    parse_config: &C,
    derive: &D,
) -> (metadata: Result<PreparedRootMetadata, ImageError>)
    requires
        inputs.image@.raw_config().len() < HASH_LENGTH_LIMIT,
        forall|bytes: &[u8]| call_requires(*parse_config, (bytes,)),
        forall|manifest_digest: &Digest, diff_ids: &Vec<Digest>, target: &Platform|
            call_requires(*derive, (manifest_digest, diff_ids, target)),
    ensures
        match root {
            None => metadata matches Err(error) && error@ == not_materialized(
                inputs.image@,
                platform@,
            ),
            Some(found) => exists|reading: ConfigReading, derived: Digest|
                {
                    &&& #[trigger] crate::image::prepared::is_findings(
                        exported(reference@, platform@, inputs.image@, found@),
                        reference@,
                        platform,
                        materializer_abi,
                        *parse_config,
                        *derive,
                        reading,
                        derived,
                    )
                    &&& PreparedRootMetadata::outcome(metadata) == export_result(
                        reference@,
                        platform@,
                        inputs.image@,
                        Some(found@),
                        materializer_abi,
                        ImageConfig::reading(reading),
                        derived@,
                    )
                },
        },
{
    let root: FlatRootfsRef = match root {
        Some(root) => root,
        None => {
            let mut message: String = "flat rootfs is not materialized for ".to_owned();
            message.append(inputs.image.manifest_digest.as_str());
            message.append(" on ");
            message.append(platform_name(platform).as_str());
            return Err(ImageError::ConfigParse(message));
        },
    };
    let metadata: PreparedRootMetadata = PreparedRootMetadata {
        schema: PREPARED_ROOT_SCHEMA,
        source_reference: reference.text.clone(),
        platform: PreparedRootPlatform {
            os: platform.os.clone(),
            architecture: platform.arch.clone(),
            variant: copy_variant(&platform.variant),
        },
        image: inputs.image,
        root,
    };
    assert(metadata@ == exported(reference@, platform@, inputs.image@, root@));
    match validate_metadata(
        &metadata,
        reference,
        platform,
        materializer_abi,
        parse_config,
        derive,
    ) {
        Ok(_) => Ok(metadata),
        Err(error) => Err(error),
    }
}

impl PreparedRootMetadata {
    /// What the result of an export says.
    pub open spec fn outcome(result: Result<PreparedRootMetadata, ImageError>) -> Result<
        MetadataView,
        ImageErrorView,
    > {
        match result {
            Ok(metadata) => Ok(metadata@),
            Err(error) => Err(error@),
        }
    }
}

/// What is exported is accepted: a bundle exported for a reference and a platform passes
/// validation for them, wherever the image's configuration document reads the same and its
/// inputs derive to the same digest.
pub proof fn exports_are_accepted(
    reference: ReferenceView,
    platform: PlatformView,
    image: ImageView,
    root: Option<RootView>,
    materializer_abi: u32,
    reading: ConfigReadingView,
    derived: Seq<char>,
)
    requires
        export_result(reference, platform, image, root, materializer_abi, reading, derived) is Ok,
    ensures
        export_result(
            reference,
            platform,
            image,
            root,
            materializer_abi,
            reading,
            derived,
        )->Ok_0.verdict(reference, platform, materializer_abi, reading, derived) is Ok,
        root == Some(
            export_result(
                reference,
                platform,
                image,
                root,
                materializer_abi,
                reading,
                derived,
            )->Ok_0.root,
        ),
{
}

} // verus!
