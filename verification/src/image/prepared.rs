//! Prepared root filesystems: what binds one to its image, and what may be exported.

use vstd::prelude::*;
use vstd::string::*;

use crate::image::digest::{parse_digest, Digest};
use crate::image::error::{config_error, ImageError, ImageErrorView, Verdict};
use crate::image::hashing::HASH_LENGTH_LIMIT;
use crate::image::metadata::{
    layer_diff_ids, validate_image_metadata, CachedImageMetadata, ConfigReading, ConfigReadingView,
    ImageConfig, ImageView,
};
use crate::text::{decimal, same_text};

verus! {

/// Version of the prepared-root bundle.
pub const PREPARED_ROOT_SCHEMA: u32 = 1;

/// Version of the flat-root artifact.
pub const FLAT_ROOT_SCHEMA: u32 = 1;

/// Filename containing the prepared-root metadata document.
pub const PREPARED_ROOT_METADATA_FILENAME: &'static str = "metadata.json";

/// Filename containing the Zstandard-compressed sparse ext4 bytes.
pub const PREPARED_ROOT_PAYLOAD_FILENAME: &'static str = "rootfs.raw.zst";

/// An image reference.
#[derive(Clone, Debug, PartialEq, Eq)]
pub struct Reference {
    /// The whole reference as people write it.
    pub text: String,
    /// The digest that it is pinned by, where it is.
    pub digest: Option<String>,
}

/// A target platform.
#[derive(Clone, Debug, PartialEq, Eq)]
pub struct Platform {
    /// Operating-system name.
    pub os: String,
    /// CPU architecture name.
    pub arch: String,
    /// Architecture variant, where there is one.
    pub variant: Option<String>,
}

/// Target platform stored in a prepared-root bundle.
#[derive(Clone, Debug, PartialEq, Eq)]
pub struct PreparedRootPlatform {
    /// OCI operating-system name.
    pub os: String,
    /// OCI CPU architecture name.
    pub architecture: String,
    /// Optional OCI architecture variant.
    pub variant: Option<String>,
}

/// Identity and filesystem statistics of a flat-root artifact.
#[derive(Clone, Debug, PartialEq, Eq)]
pub struct FlatRootfsRef {
    /// Version of the artifact.
    pub schema: u32,
    /// Digest of the manifest of the image that it was made from.
    pub manifest_digest: String,
    /// Digest of everything that it was made from.
    pub derivation_digest: String,
    /// Digest of its bytes.
    pub artifact_digest: String,
    /// Version of the materializer that made it.
    pub materializer_abi: u32,
    /// Identifier of the filesystem.
    pub uuid: String,
    /// Size of the filesystem in bytes.
    pub virtual_size_bytes: u64,
    /// Number of inodes.
    pub inode_count: u64,
    /// Number of bytes of contents.
    pub content_bytes: u64,
}

/// Versioned metadata binding a prepared ext4 root to its OCI image inputs.
#[derive(Clone, Debug, PartialEq, Eq)]
pub struct PreparedRootMetadata {
    /// Prepared-root bundle schema version.
    pub schema: u32,
    /// Immutable OCI reference from which the root was materialized.
    pub source_reference: String,
    /// Target platform used by the deterministic materializer.
    pub platform: PreparedRootPlatform,
    /// OCI manifest, configuration, and ordered layer metadata.
    pub image: CachedImageMetadata,
    /// Validated flat-root artifact identity and filesystem statistics.
    pub root: FlatRootfsRef,
}

/// What a [`Reference`] says.
pub struct ReferenceView {
    /// The whole reference.
    pub text: Seq<char>,
    /// The digest that it is pinned by, where it is.
    pub digest: Option<Seq<char>>,
}

/// What a [`Platform`] or a [`PreparedRootPlatform`] says.
pub struct PlatformView {
    /// Operating-system name.
    pub os: Seq<char>,
    /// CPU architecture name.
    pub arch: Seq<char>,
    /// Architecture variant, where there is one.
    pub variant: Option<Seq<char>>,
}

/// What a [`FlatRootfsRef`] says.
pub struct RootView {
    /// Version of the artifact.
    pub schema: u32,
    /// Digest of the manifest of the image that it was made from.
    pub manifest_digest: Seq<char>,
    /// Digest of everything that it was made from.
    pub derivation_digest: Seq<char>,
    /// Digest of its bytes.
    pub artifact_digest: Seq<char>,
    /// Version of the materializer that made it.
    pub materializer_abi: u32,
    /// Identifier of the filesystem.
    pub uuid: Seq<char>,
    /// Size of the filesystem in bytes.
    pub virtual_size_bytes: u64,
    /// Number of inodes.
    pub inode_count: u64,
    /// Number of bytes of contents.
    pub content_bytes: u64,
}

/// What a [`PreparedRootMetadata`] says.
pub struct MetadataView {
    /// Prepared-root bundle schema version.
    pub schema: u32,
    /// Reference from which the root was materialized.
    pub source_reference: Seq<char>,
    /// Target platform.
    pub platform: PlatformView,
    /// Image metadata.
    pub image: ImageView,
    /// Flat-root artifact.
    pub root: RootView,
}

impl Reference {
    /// The characters of a text, where there is one.
    pub open spec fn optional(text: Option<String>) -> Option<Seq<char>> {
        match text {
            Some(found) => Some(found@),
            None => None,
        }
    }
}

impl View for Reference {
    type V = ReferenceView;

    open spec fn view(&self) -> ReferenceView {
        ReferenceView { text: self.text@, digest: Reference::optional(self.digest) }
    }
}

impl View for Platform {
    type V = PlatformView;

    open spec fn view(&self) -> PlatformView {
        PlatformView {
            os: self.os@,
            arch: self.arch@,
            variant: Reference::optional(self.variant),
        }
    }
}

impl View for PreparedRootPlatform {
    type V = PlatformView;

    open spec fn view(&self) -> PlatformView {
        PlatformView {
            os: self.os@,
            arch: self.architecture@,
            variant: Reference::optional(self.variant),
        }
    }
}

impl View for FlatRootfsRef {
    type V = RootView;

    open spec fn view(&self) -> RootView {
        RootView {
            schema: self.schema,
            manifest_digest: self.manifest_digest@,
            derivation_digest: self.derivation_digest@,
            artifact_digest: self.artifact_digest@,
            materializer_abi: self.materializer_abi,
            uuid: self.uuid@,
            virtual_size_bytes: self.virtual_size_bytes,
            inode_count: self.inode_count,
            content_bytes: self.content_bytes,
        }
    }
}

impl View for PreparedRootMetadata {
    type V = MetadataView;

    open spec fn view(&self) -> MetadataView {
        MetadataView {
            schema: self.schema,
            source_reference: self.source_reference@,
            platform: self.platform@,
            image: self.image@,
            root: self.root@,
        }
    }
}

impl PlatformView {
    /// The name of a platform: its parts, with slashes between them.
    pub open spec fn name(self) -> Seq<char> {
        match self.variant {
            Some(variant) => self.os + "/"@ + self.arch + "/"@ + variant,
            None => self.os + "/"@ + self.arch,
        }
    }
}

impl ReferenceView {
    /// The verdict on a reference that must be pinned by a manifest's digest.
    pub open spec fn pinned_verdict(self, manifest_digest: Seq<char>) -> Verdict {
        match self.digest {
            Some(digest) => if digest == manifest_digest {
                Ok(())
            } else {
                ImageErrorView::refused(
                    "image reference digest "@ + digest + " does not match manifest "@
                        + manifest_digest,
                )
            },
            None => ImageErrorView::refused(
                "prepared-root source must be pinned by digest: "@ + self.text,
            ),
        }
    }
}

impl MetadataView {
    /// The verdict on what the bundle says it is: its version, its source and its platform,
    /// and whether the source is pinned by the image's manifest.
    pub open spec fn identity_verdict(
        self,
        reference: ReferenceView,
        platform: PlatformView,
    ) -> Verdict {
        if self.schema != PREPARED_ROOT_SCHEMA {
            ImageErrorView::refused(
                "unsupported prepared-root schema "@ + crate::text::decimal_text(
                    self.schema as nat,
                ),
            )
        } else if self.source_reference != reference.text {
            ImageErrorView::refused(
                "prepared root source mismatch: expected "@ + reference.text + ", got "@
                    + self.source_reference,
            )
        } else if self.platform != platform {
            ImageErrorView::refused(
                "prepared root platform mismatch: expected "@ + platform.name() + ", got "@
                    + self.platform.name(),
            )
        } else if !Digest::accepts(self.image.manifest_digest) {
            Err(Digest::invalid("image manifest digest"@, self.image.manifest_digest))
        } else {
            reference.pinned_verdict(self.image.manifest_digest)
        }
    }

    /// The verdict on the root: it belongs to the image's manifest and this materializer made
    /// it, and the image's layers are named by digests.
    pub open spec fn root_verdict(self, materializer_abi: u32) -> Verdict {
        if self.root.schema != FLAT_ROOT_SCHEMA || self.root.manifest_digest
            != self.image.manifest_digest {
            ImageErrorView::refused("prepared root does not match its image manifest"@)
        } else if self.root.materializer_abi != materializer_abi {
            ImageErrorView::refused(
                "prepared root materializer ABI mismatch: expected "@ + crate::text::decimal_text(
                    materializer_abi as nat,
                ) + ", got "@ + crate::text::decimal_text(self.root.materializer_abi as nat),
            )
        } else {
            self.image.diff_ids_verdict()
        }
    }

    /// The verdict on the root's digests, given what the image's inputs derive to.
    pub open spec fn derivation_verdict(self, derived: Seq<char>) -> Verdict {
        if self.root.derivation_digest != derived {
            ImageErrorView::refused("prepared root derivation digest does not match its inputs"@)
        } else if !Digest::accepts(self.root.artifact_digest) {
            Err(Digest::invalid("flat artifact digest"@, self.root.artifact_digest))
        } else {
            Ok(())
        }
    }

    /// The verdict on everything that can be said before the image's inputs are derived from.
    pub open spec fn inputs_verdict(
        self,
        reference: ReferenceView,
        platform: PlatformView,
        materializer_abi: u32,
        reading: ConfigReadingView,
    ) -> Verdict {
        if self.identity_verdict(reference, platform) is Err {
            self.identity_verdict(reference, platform)
        } else if self.image.verdict(reading) is Err {
            self.image.verdict(reading)
        } else {
            self.root_verdict(materializer_abi)
        }
    }

    /// The verdict on a bundle for a reference and a platform, given the version of the
    /// materializer, what reading the image's configuration document comes to and what the
    /// image's inputs derive to.
    pub open spec fn verdict(
        self,
        reference: ReferenceView,
        platform: PlatformView,
        materializer_abi: u32,
        reading: ConfigReadingView,
        derived: Seq<char>,
    ) -> Verdict {
        if self.inputs_verdict(reference, platform, materializer_abi, reading) is Err {
            self.inputs_verdict(reference, platform, materializer_abi, reading)
        } else {
            self.derivation_verdict(derived)
        }
    }
}

/// The name of a platform.
pub fn platform_name(platform: &Platform) -> (name: String)
    ensures
        name@ == platform@.name(),
{
    joined_name(&platform.os, &platform.arch, &platform.variant)
}

/// The name of a platform stored in a bundle.
pub fn prepared_platform_name(platform: &PreparedRootPlatform) -> (name: String)
    ensures
        name@ == platform@.name(),
{
    joined_name(&platform.os, &platform.architecture, &platform.variant)
}

fn joined_name(os: &String, arch: &String, variant: &Option<String>) -> (name: String)
    ensures
        name@ == (PlatformView {
            os: os@,
            arch: arch@,
            variant: Reference::optional(*variant),
        }).name(),
{
    let mut name: String = os.clone();
    name.append("/");
    name.append(arch.as_str());
    if let Some(variant) = variant {
        name.append("/");
        name.append(variant.as_str());
    }
    name
}

fn same_variant(a: &Option<String>, b: &Option<String>) -> (same: bool)
    ensures
        same == (Reference::optional(*a) == Reference::optional(*b)),
{
    match (a, b) {
        (Some(left), Some(right)) => same_text(left.as_str(), right.as_str()),
        (None, None) => true,
        _ => false,
    }
}

fn same_platform(prepared: &PreparedRootPlatform, platform: &Platform) -> (same: bool)
    ensures
        same == (prepared@ == platform@),
{
    same_text(prepared.os.as_str(), platform.os.as_str()) && same_text(
        prepared.architecture.as_str(),
        platform.arch.as_str(),
    ) && same_variant(&prepared.variant, &platform.variant)
}

/// Whether a reference is pinned by a manifest's digest.
pub fn validate_pinned_reference(
    reference: &Reference,
    manifest_digest: &Digest,
) -> (checked: Result<(), ImageError>)
    ensures
        ImageError::verdict(checked) == reference@.pinned_verdict(manifest_digest@),
{
    let manifest: String = manifest_digest.text();
    match &reference.digest {
        Some(digest) => {
            if same_text(digest.as_str(), manifest.as_str()) {
                return Ok(());
            }
            let mut message: String = "image reference digest ".to_owned();
            message.append(digest.as_str());
            message.append(" does not match manifest ");
            message.append(manifest.as_str());
            Err(ImageError::ConfigParse(message))
        },
        None => {
            let mut message: String = "prepared-root source must be pinned by digest: ".to_owned();
            message.append(reference.text.as_str());
            Err(ImageError::ConfigParse(message))
        },
    }
}

/// Holds what a bundle says it is against what is asked for, and gives the manifest's digest.
pub fn check_identity(
    metadata: &PreparedRootMetadata,
    reference: &Reference,
    platform: &Platform,
) -> (manifest_digest: Result<Digest, ImageError>)
    ensures
        match manifest_digest {
            Ok(digest) => {
                &&& metadata@.identity_verdict(reference@, platform@) is Ok
                &&& digest@ == metadata@.image.manifest_digest
            },
            Err(error) => metadata@.identity_verdict(reference@, platform@) == Err::<
                (),
                ImageErrorView,
            >(error@),
        },
{
    if metadata.schema != PREPARED_ROOT_SCHEMA {
        let mut message: String = "unsupported prepared-root schema ".to_owned();
        message.append(decimal(metadata.schema as u64).as_str());
        return Err(ImageError::ConfigParse(message));
    }
    if !same_text(metadata.source_reference.as_str(), reference.text.as_str()) {
        let mut message: String = "prepared root source mismatch: expected ".to_owned();
        message.append(reference.text.as_str());
        message.append(", got ");
        message.append(metadata.source_reference.as_str());
        return Err(ImageError::ConfigParse(message));
    }
    if !same_platform(&metadata.platform, platform) {
        let mut message: String = "prepared root platform mismatch: expected ".to_owned();
        message.append(platform_name(platform).as_str());
        message.append(", got ");
        message.append(prepared_platform_name(&metadata.platform).as_str());
        return Err(ImageError::ConfigParse(message));
    }
    match parse_digest(metadata.image.manifest_digest.as_str(), "image manifest digest") {
        Ok(manifest_digest) => match validate_pinned_reference(reference, &manifest_digest) {
            Ok(_) => Ok(manifest_digest),
            Err(error) => Err(error),
        },
        Err(error) => Err(error),
    }
}

/// Holds a bundle's root against its image, and gives the digests of the image's uncompressed
/// layers.
pub fn check_root(
    metadata: &PreparedRootMetadata,
    materializer_abi: u32,
) -> (diff_ids: Result<Vec<Digest>, ImageError>)
    ensures
        match diff_ids {
            Ok(digests) => {
                &&& metadata@.root_verdict(materializer_abi) is Ok
                &&& Digest::texts(digests@) == metadata@.image.diff_ids()
            },
            Err(error) => metadata@.root_verdict(materializer_abi) == Err::<(), ImageErrorView>(
                error@,
            ),
        },
{
    if metadata.root.schema != FLAT_ROOT_SCHEMA || !same_text(
        metadata.root.manifest_digest.as_str(),
        metadata.image.manifest_digest.as_str(),
    ) {
        return Err(config_error("prepared root does not match its image manifest"));
    }
    if metadata.root.materializer_abi != materializer_abi {
        let mut message: String = "prepared root materializer ABI mismatch: expected ".to_owned();
        message.append(decimal(materializer_abi as u64).as_str());
        message.append(", got ");
        message.append(decimal(metadata.root.materializer_abi as u64).as_str());
        return Err(ImageError::ConfigParse(message));
    }
    layer_diff_ids(&metadata.image)
}

/// Holds a bundle's root against what the image's inputs derive to.
pub fn check_derivation(
    metadata: &PreparedRootMetadata,
    derived: &Digest,
) -> (checked: Result<(), ImageError>)
    ensures
        ImageError::verdict(checked) == metadata@.derivation_verdict(derived@),
        checked is Ok ==> Digest::accepts(metadata@.root.derivation_digest),
{
    if !same_text(metadata.root.derivation_digest.as_str(), derived.text().as_str()) {
        return Err(config_error("prepared root derivation digest does not match its inputs"));
    }
    match parse_digest(metadata.root.artifact_digest.as_str(), "flat artifact digest") {
        Ok(_) => Ok(()),
        Err(error) => Err(error),
    }
}

/// Whether `derived` is what `derive` makes of an image's inputs for a platform.
pub open spec fn derives<D: Fn(&Digest, &Vec<Digest>, &Platform) -> Digest>(
    derive: D,
    image: ImageView,
    platform: &Platform,
    derived: Digest,
) -> bool {
    exists|manifest_digest: &Digest, diff_ids: &Vec<Digest>|
        {
            &&& manifest_digest@ == image.manifest_digest
            &&& Digest::texts(diff_ids@) == image.diff_ids()
            &&& #[trigger] call_ensures(derive, (manifest_digest, diff_ids, platform), derived)
        }
}

/// Whether a bundle is the one asked for and its root is bound to its image. The image's
/// configuration document is read with `parse_config`, and what its inputs derive to is
/// computed with `derive`, each only once everything before it holds. Whatever passes names
/// its manifest, its derivation, its artifact and its layers by digests.
pub fn validate_metadata<
    C: Fn(&[u8]) -> ConfigReading,
    D: Fn(&Digest, &Vec<Digest>, &Platform) -> Digest,
>(
    metadata: &PreparedRootMetadata,
    reference: &Reference,
    platform: &Platform,
    materializer_abi: u32,
    parse_config: &C,
    derive: &D,
) -> (checked: Result<(), ImageError>)
    requires
        metadata@.image.raw_config().len() < HASH_LENGTH_LIMIT,
        forall|bytes: &[u8]| call_requires(*parse_config, (bytes,)),
        forall|manifest_digest: &Digest, diff_ids: &Vec<Digest>, target: &Platform|
            call_requires(*derive, (manifest_digest, diff_ids, target)),
    ensures
        bundle_validates_as(
            metadata@,
            reference@,
            platform,
            materializer_abi,
            *parse_config,
            *derive,
            ImageError::verdict(checked),
        ),
        checked is Ok ==> {
            &&& Digest::accepts(metadata@.image.manifest_digest)
            &&& Digest::accepts(metadata@.root.derivation_digest)
            &&& Digest::accepts(metadata@.root.artifact_digest)
            &&& metadata@.image.diff_ids_accepted()
        },
{
    let ghost view = metadata@;
    let ghost anything: Digest = arbitrary();
    let manifest_digest: Digest = match check_identity(metadata, reference, platform) {
        Ok(manifest_digest) => manifest_digest,
        Err(error) => {
            let ghost unread: ConfigReading = Err(error);
            assert(view.verdict(
                reference@,
                platform@,
                materializer_abi,
                ImageConfig::reading(unread),
                anything@,
            ) == Err::<(), ImageErrorView>(error@));
            return Err(error);
        },
    };
    let image_checked: Result<(), ImageError> = validate_image_metadata(
        &metadata.image,
        parse_config,
    );
    let ghost reading = choose|reading: ConfigReading|
        {
            &&& view.image.documents_verdict() is Ok
                ==> crate::image::metadata::reads_config(
                *parse_config,
                view.image.raw_config(),
                reading,
            )
            &&& ImageError::verdict(image_checked) == view.image.verdict(
                #[trigger] ImageConfig::reading(reading),
            )
        };
    if let Err(error) = image_checked {
        assert(view.verdict(
            reference@,
            platform@,
            materializer_abi,
            ImageConfig::reading(reading),
            anything@,
        ) == Err::<(), ImageErrorView>(error@));
        return Err(error);
    }
    let diff_ids: Vec<Digest> = match check_root(metadata, materializer_abi) {
        Ok(diff_ids) => diff_ids,
        Err(error) => {
            assert(view.verdict(
                reference@,
                platform@,
                materializer_abi,
                ImageConfig::reading(reading),
                anything@,
            ) == Err::<(), ImageErrorView>(error@));
            return Err(error);
        },
    };
    let derived: Digest = derive(&manifest_digest, &diff_ids, platform);
    assert(derives(*derive, view.image, platform, derived));
    let checked: Result<(), ImageError> = check_derivation(metadata, &derived);
    assert(ImageError::verdict(checked) == view.verdict(
        reference@,
        platform@,
        materializer_abi,
        ImageConfig::reading(reading),
        derived@,
    ));
    checked
}

/// Whether `reading` and `derived` are what `parse_config` and `derive` make of a bundle,
/// each as far as the checks before it get.
pub open spec fn is_findings<
    C: Fn(&[u8]) -> ConfigReading,
    D: Fn(&Digest, &Vec<Digest>, &Platform) -> Digest,
>(
    metadata: MetadataView,
    reference: ReferenceView,
    platform: &Platform,
    materializer_abi: u32,
    parse_config: C,
    derive: D,
    reading: ConfigReading,
    derived: Digest,
) -> bool {
    &&& (metadata.identity_verdict(reference, platform@) is Ok
        && metadata.image.documents_verdict() is Ok) ==> crate::image::metadata::reads_config(
        parse_config,
        metadata.image.raw_config(),
        reading,
    )
    &&& metadata.inputs_verdict(
        reference,
        platform@,
        materializer_abi,
        ImageConfig::reading(reading),
    ) is Ok ==> derives(derive, metadata.image, platform, derived)
}

/// Whether `verdict` is the one on a bundle whose image's configuration document is read with
/// `parse_config` and whose image's inputs are derived from with `derive`.
pub open spec fn bundle_validates_as<
    C: Fn(&[u8]) -> ConfigReading,
    D: Fn(&Digest, &Vec<Digest>, &Platform) -> Digest,
>(
    metadata: MetadataView,
    reference: ReferenceView,
    platform: &Platform,
    materializer_abi: u32,
    parse_config: C,
    derive: D,
    verdict: Verdict,
) -> bool {
    exists|reading: ConfigReading, derived: Digest|
        is_findings(
            metadata,
            reference,
            platform,
            materializer_abi,
            parse_config,
            derive,
            reading,
            derived,
        ) && verdict == #[trigger] metadata.verdict(
            reference,
            platform@,
            materializer_abi,
            ImageConfig::reading(reading),
            derived@,
        )
}

/// Whether `derive` makes one digest of the same inputs for a platform.
pub open spec fn derives_one_way<D: Fn(&Digest, &Vec<Digest>, &Platform) -> Digest>(
    derive: D,
    platform: &Platform,
) -> bool {
    forall|
        first: &Digest,
        second: &Digest,
        first_ids: &Vec<Digest>,
        second_ids: &Vec<Digest>,
        one: Digest,
        other: Digest,
    |
        #[trigger] call_ensures(derive, (first, first_ids, platform), one)
            && #[trigger] call_ensures(derive, (second, second_ids, platform), other) && first@
            == second@ && Digest::texts(first_ids@) == Digest::texts(second_ids@) ==> one@
            == other@
}

impl MetadataView {
    /// Everything that must hold of a bundle for a reference and a platform.
    pub open spec fn is_bound(
        self,
        reference: ReferenceView,
        platform: PlatformView,
        materializer_abi: u32,
        reading: ConfigReadingView,
        derived: Seq<char>,
    ) -> bool {
        &&& self.schema == PREPARED_ROOT_SCHEMA
        &&& self.source_reference == reference.text
        &&& self.platform == platform
        &&& Digest::accepts(self.image.manifest_digest)
        &&& reference.digest == Some(self.image.manifest_digest)
        &&& self.image.verdict(reading) is Ok
        &&& self.root.schema == FLAT_ROOT_SCHEMA
        &&& self.root.manifest_digest == self.image.manifest_digest
        &&& self.root.materializer_abi == materializer_abi
        &&& self.image.diff_ids_accepted()
        &&& self.root.derivation_digest == derived
        &&& Digest::accepts(self.root.artifact_digest)
    }
}

impl ImageView {
    /// Everything that must hold of an image and its documents.
    pub open spec fn agrees(self, reading: ConfigReadingView) -> bool {
        &&& self.config_digest == crate::image::hashing::digest_text(
            crate::image::hashing::sha256(self.raw_config()),
        )
        &&& crate::image::manifest::manifest_in(self.raw_manifest_json) matches Ok(manifest) && {
            &&& manifest.config_digest == self.config_digest
            &&& manifest.config_size == self.raw_config().len()
            &&& manifest.layers.len() == self.layers.len()
            &&& self.layers_described_by(manifest)
        }
        &&& reading matches Ok((config, diff_ids)) && {
            &&& crate::image::manifest::json_in(config) matches Ok(read)
                && crate::image::manifest::json_in(self.config) matches Ok(cached)
                && crate::image::manifest::json_equal(read, cached)
            &&& diff_ids == self.diff_ids()
        }
    }
}

/// An image is accepted exactly where it agrees with its documents.
pub proof fn accepted_images_agree(image: ImageView, reading: ConfigReadingView)
    ensures
        image.verdict(reading) is Ok <==> image.agrees(reading),
{
}

impl ImageView {
    /// The image with two of its layers in each other's place.
    pub open spec fn with_layers_swapped(self, i: int, j: int) -> Self {
        ImageView {
            layers: self.layers.update(i, self.layers[j]).update(j, self.layers[i]),
            ..self
        }
    }
}

/// Layers are bound in order, not as a set: an accepted image is refused once two layers that
/// differ in anything change places, by the same reading of its configuration document.
pub proof fn layers_are_bound_in_order(
    image: ImageView,
    reading: ConfigReadingView,
    i: int,
    j: int,
)
    requires
        image.verdict(reading) is Ok,
        0 <= i < j < image.layers.len(),
        image.layers[i] != image.layers[j],
    ensures
        image.with_layers_swapped(i, j).verdict(reading) is Err,
{
    let swapped = image.with_layers_swapped(i, j);
    if swapped.verdict(reading) is Ok {
        accepted_images_agree(image, reading);
        accepted_images_agree(swapped, reading);
        if let Ok(manifest) = crate::image::manifest::manifest_in(image.raw_manifest_json) {
            assert(image.layers[i].is_described_by(manifest.layers[i]));
            assert(swapped.layers[i].is_described_by(manifest.layers[i]));
        }
        assert(image.diff_ids()[i] == image.layers[i].diff_id);
        assert(swapped.diff_ids()[i] == image.layers[j].diff_id);
        assert(image.layers[i] == image.layers[j]);
    }
}

/// Validation binds layers in order: where a configuration document is read in one way, an image
/// that passes validation does not pass it with two different layers in each other's place.
pub proof fn images_with_swapped_layers_are_refused<C: Fn(&[u8]) -> ConfigReading>(
    parse_config: C,
    image: ImageView,
    i: int,
    j: int,
    accepted: Verdict,
    swapped: Verdict,
)
    requires
        crate::image::metadata::reads_one_way(parse_config),
        crate::image::metadata::validates_as(parse_config, image, accepted),
        crate::image::metadata::validates_as(
            parse_config,
            image.with_layers_swapped(i, j),
            swapped,
        ),
        accepted is Ok,
        0 <= i < j < image.layers.len(),
        image.layers[i] != image.layers[j],
    ensures
        swapped is Err,
{
    let other = image.with_layers_swapped(i, j);
    let first = choose|reading: ConfigReading|
        {
            &&& image.documents_verdict() is Ok ==> crate::image::metadata::reads_config(
                parse_config,
                image.raw_config(),
                reading,
            )
            &&& accepted == image.verdict(#[trigger] ImageConfig::reading(reading))
        };
    let second = choose|reading: ConfigReading|
        {
            &&& other.documents_verdict() is Ok ==> crate::image::metadata::reads_config(
                parse_config,
                other.raw_config(),
                reading,
            )
            &&& swapped == other.verdict(#[trigger] ImageConfig::reading(reading))
        };
    layers_are_bound_in_order(image, ImageConfig::reading(first), i, j);
    if swapped is Ok {
        assert(ImageConfig::reading(first) == ImageConfig::reading(second));
    }
}

/// A bundle is accepted exactly where everything binds it to what is asked for.
pub proof fn accepted_bundles_are_bound(
    metadata: MetadataView,
    reference: ReferenceView,
    platform: PlatformView,
    materializer_abi: u32,
    reading: ConfigReadingView,
    derived: Seq<char>,
)
    ensures
        metadata.verdict(reference, platform, materializer_abi, reading, derived) is Ok
            <==> metadata.is_bound(reference, platform, materializer_abi, reading, derived),
{
}

/// The filesystem's statistics play no part in what a bundle is accepted for: bundles that
/// differ only in the identifier, the size, the number of inodes and the number of content bytes
/// of their roots get the same verdict. The size is held against the payload instead.
pub proof fn statistics_play_no_part(
    metadata: MetadataView,
    other: MetadataView,
    reference: ReferenceView,
    platform: PlatformView,
    materializer_abi: u32,
    reading: ConfigReadingView,
    derived: Seq<char>,
)
    requires
        other == (MetadataView {
            root: RootView {
                uuid: other.root.uuid,
                virtual_size_bytes: other.root.virtual_size_bytes,
                inode_count: other.root.inode_count,
                content_bytes: other.root.content_bytes,
                ..metadata.root
            },
            ..metadata
        }),
    ensures
        other.verdict(reference, platform, materializer_abi, reading, derived)
            == metadata.verdict(reference, platform, materializer_abi, reading, derived),
{
}

/// Validation leaves the filesystem's statistics aside: where a configuration document is read
/// in one way and the same inputs derive to one digest, bundles that differ only in their roots'
/// statistics are validated alike.
pub proof fn statistics_do_not_change_validation<
    C: Fn(&[u8]) -> ConfigReading,
    D: Fn(&Digest, &Vec<Digest>, &Platform) -> Digest,
>(
    metadata: MetadataView,
    other: MetadataView,
    reference: ReferenceView,
    platform: &Platform,
    materializer_abi: u32,
    parse_config: C,
    derive: D,
    verdict: Verdict,
    other_verdict: Verdict,
)
    requires
        other == (MetadataView {
            root: RootView {
                uuid: other.root.uuid,
                virtual_size_bytes: other.root.virtual_size_bytes,
                inode_count: other.root.inode_count,
                content_bytes: other.root.content_bytes,
                ..metadata.root
            },
            ..metadata
        }),
        crate::image::metadata::reads_one_way(parse_config),
        derives_one_way(derive, platform),
        bundle_validates_as(
            metadata,
            reference,
            platform,
            materializer_abi,
            parse_config,
            derive,
            verdict,
        ),
        bundle_validates_as(
            other,
            reference,
            platform,
            materializer_abi,
            parse_config,
            derive,
            other_verdict,
        ),
    ensures
        verdict == other_verdict,
{
    let (first, one) = choose|reading: ConfigReading, derived: Digest|
        is_findings(
            metadata,
            reference,
            platform,
            materializer_abi,
            parse_config,
            derive,
            reading,
            derived,
        ) && verdict == #[trigger] metadata.verdict(
            reference,
            platform@,
            materializer_abi,
            ImageConfig::reading(reading),
            derived@,
        );
    let (second, two) = choose|reading: ConfigReading, derived: Digest|
        is_findings(
            other,
            reference,
            platform,
            materializer_abi,
            parse_config,
            derive,
            reading,
            derived,
        ) && other_verdict == #[trigger] other.verdict(
            reference,
            platform@,
            materializer_abi,
            ImageConfig::reading(reading),
            derived@,
        );
    statistics_play_no_part(
        metadata,
        other,
        reference,
        platform@,
        materializer_abi,
        ImageConfig::reading(second),
        two@,
    );
    if metadata.identity_verdict(reference, platform@) is Ok
        && metadata.image.documents_verdict() is Ok {
        assert(ImageConfig::reading(first) == ImageConfig::reading(second));
        if metadata.inputs_verdict(
            reference,
            platform@,
            materializer_abi,
            ImageConfig::reading(first),
        ) is Ok {
            assert(one@ == two@);
        }
    }
}

/// A bundle is accepted for one reference, one platform and one version of the materializer
/// only, whatever its image's configuration document reads as.
pub proof fn bundles_serve_one_purpose(
    metadata: MetadataView,
    first: ReferenceView,
    first_platform: PlatformView,
    first_abi: u32,
    first_reading: ConfigReadingView,
    first_derived: Seq<char>,
    second: ReferenceView,
    second_platform: PlatformView,
    second_abi: u32,
    second_reading: ConfigReadingView,
    second_derived: Seq<char>,
)
    requires
        metadata.verdict(first, first_platform, first_abi, first_reading, first_derived) is Ok,
        metadata.verdict(second, second_platform, second_abi, second_reading, second_derived) is Ok,
    ensures
        first == second,
        first_platform == second_platform,
        first_abi == second_abi,
        first_derived == second_derived,
{
}

} // verus!
