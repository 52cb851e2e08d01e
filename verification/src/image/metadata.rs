//! Metadata of a cached image, and how it is held against the documents that it was made from.

use vstd::prelude::*;
use vstd::string::*;

use crate::image::digest::{parse_digest, Digest};
use crate::image::error::{config_error, ImageError, ImageErrorView, Verdict};
use crate::image::hashing::{content_digest, HASH_LENGTH_LIMIT};
use crate::image::manifest::{
    parse_json, parse_manifest, same_json, LayerDescriptor, LayerDescriptorView, ManifestSummary,
    ManifestView,
};
use crate::text::same_text;

verus! {

/// The runtime configuration of an image, as the JSON document that it serializes to.
#[derive(Clone, Debug, PartialEq, Eq)]
pub struct ImageConfig {
    /// The JSON document.
    pub document: String,
}

/// A layer of a cached image.
#[derive(Clone, Debug, PartialEq, Eq)]
pub struct CachedLayerMetadata {
    /// Digest of the layer's blob.
    pub digest: String,
    /// Media type of the blob, where it is known.
    pub media_type: Option<String>,
    /// Size of the blob in bytes, where it is known.
    pub size_bytes: Option<u64>,
    /// Digest of the layer's uncompressed contents.
    pub diff_id: String,
}

/// Manifest, configuration and ordered layers of a cached image.
#[derive(Clone, Debug, PartialEq, Eq)]
pub struct CachedImageMetadata {
    /// Digest of the manifest, as the registry gave it.
    pub manifest_digest: String,
    /// Digest of the configuration document.
    pub config_digest: String,
    /// The manifest document.
    pub raw_manifest_json: String,
    /// The configuration document.
    pub raw_config_json: String,
    /// The runtime configuration read from the configuration document.
    pub config: ImageConfig,
    /// The layers, from the base up.
    pub layers: Vec<CachedLayerMetadata>,
}

/// What reading an image's configuration document comes to: the runtime configuration and the
/// digests of the uncompressed layers, or an error.
pub type ConfigReading = Result<(ImageConfig, Vec<String>), ImageError>;

/// What a [`ConfigReading`] says.
pub type ConfigReadingView = Result<(Seq<char>, Seq<Seq<char>>), ImageErrorView>;

/// What a [`CachedLayerMetadata`] says.
pub struct LayerView {
    /// Digest of the layer's blob.
    pub digest: Seq<char>,
    /// Media type of the blob, where it is known.
    pub media_type: Option<Seq<char>>,
    /// Size of the blob in bytes, where it is known.
    pub size_bytes: Option<u64>,
    /// Digest of the layer's uncompressed contents.
    pub diff_id: Seq<char>,
}

/// What a [`CachedImageMetadata`] says.
pub struct ImageView {
    /// Digest of the manifest, as the registry gave it.
    pub manifest_digest: Seq<char>,
    /// Digest of the configuration document.
    pub config_digest: Seq<char>,
    /// The manifest document.
    pub raw_manifest_json: Seq<char>,
    /// The configuration document.
    pub raw_config_json: Seq<char>,
    /// The JSON document of the runtime configuration.
    pub config: Seq<char>,
    /// The layers, from the base up.
    pub layers: Seq<LayerView>,
}

impl View for CachedLayerMetadata {
    type V = LayerView;

    open spec fn view(&self) -> LayerView {
        LayerView {
            digest: self.digest@,
            media_type: match self.media_type {
                Some(media_type) => Some(media_type@),
                None => None,
            },
            size_bytes: self.size_bytes,
            diff_id: self.diff_id@,
        }
    }
}

impl View for CachedImageMetadata {
    type V = ImageView;

    open spec fn view(&self) -> ImageView {
        ImageView {
            manifest_digest: self.manifest_digest@,
            config_digest: self.config_digest@,
            raw_manifest_json: self.raw_manifest_json@,
            raw_config_json: self.raw_config_json@,
            config: self.config.document@,
            layers: self.layers@.map_values(|layer: CachedLayerMetadata| layer@),
        }
    }
}

impl ImageConfig {
    /// The characters of each text.
    pub open spec fn texts(list: Seq<String>) -> Seq<Seq<char>> {
        list.map_values(|text: String| text@)
    }

    /// What reading a configuration document came to.
    pub open spec fn reading(reading: ConfigReading) -> ConfigReadingView {
        match reading {
            Ok((config, diff_ids)) => Ok((config.document@, ImageConfig::texts(diff_ids@))),
            Err(error) => Err(error@),
        }
    }
}

impl LayerView {
    /// Whether this layer is the one that a manifest describes.
    pub open spec fn is_described_by(self, descriptor: LayerDescriptorView) -> bool {
        &&& self.digest == descriptor.digest
        &&& self.media_type == Some(descriptor.media_type)
        &&& self.size_bytes == Some(descriptor.size)
    }
}

impl ImageView {
    /// The bytes of the configuration document.
    pub open spec fn raw_config(self) -> Seq<u8> {
        vstd::utf8::encode_utf8(self.raw_config_json)
    }

    /// The digests of the uncompressed layers, in order.
    pub open spec fn diff_ids(self) -> Seq<Seq<char>> {
        self.layers.map_values(|layer: LayerView| layer.diff_id)
    }

    /// Whether every layer is the one that the manifest describes at its place.
    pub open spec fn layers_described_by(self, manifest: ManifestView) -> bool {
        forall|i: int|
            0 <= i < self.layers.len() ==> #[trigger] self.layers[i].is_described_by(
                manifest.layers[i],
            )
    }

    /// Whether every uncompressed layer is named by a digest.
    pub open spec fn diff_ids_accepted(self) -> bool {
        forall|i: int|
            0 <= i < self.diff_ids().len() ==> Digest::accepts(#[trigger] self.diff_ids()[i])
    }

    /// Whether the first uncompressed layer that is not named by a digest is at `i`.
    pub open spec fn first_unaccepted(self, i: int) -> bool {
        &&& 0 <= i < self.diff_ids().len()
        &&& !Digest::accepts(self.diff_ids()[i])
        &&& forall|j: int| 0 <= j < i ==> Digest::accepts(#[trigger] self.diff_ids()[j])
    }

    /// The verdict on the names of the uncompressed layers: the first that is no digest is
    /// reported.
    pub open spec fn diff_ids_verdict(self) -> Verdict {
        if self.diff_ids_accepted() {
            Ok(())
        } else {
            Err(
                Digest::invalid(
                    "layer diff ID"@,
                    self.diff_ids()[choose|i: int| self.first_unaccepted(i)],
                ),
            )
        }
    }

    /// The verdict on the configuration and the layers against the manifest.
    pub open spec fn manifest_verdict(self, manifest: ManifestView) -> Verdict {
        if manifest.config_digest != self.config_digest {
            ImageErrorView::refused(
                "cached config digest does not match the resolved OCI manifest"@,
            )
        } else if manifest.config_size != self.raw_config().len() {
            ImageErrorView::refused("cached config size does not match the resolved OCI manifest"@)
        } else if manifest.layers.len() != self.layers.len() {
            ImageErrorView::refused("cached layer count does not match the resolved OCI manifest"@)
        } else if !self.layers_described_by(manifest) {
            ImageErrorView::refused(
                "cached layer metadata does not match the resolved OCI manifest"@,
            )
        } else {
            Ok(())
        }
    }

    /// The verdict on the configuration document's digest and on the manifest document.
    pub open spec fn documents_verdict(self) -> Verdict {
        let hashed = digest_verdict(
            "image configuration"@,
            crate::image::hashing::digest_text(crate::image::hashing::sha256(self.raw_config())),
            self.config_digest,
        );
        if hashed is Err {
            hashed
        } else {
            match crate::image::manifest::manifest_in(self.raw_manifest_json) {
                Err(reason) => Err(
                    ImageErrorView::ManifestParse("prepared image manifest: "@ + reason),
                ),
                Ok(manifest) => self.manifest_verdict(manifest),
            }
        }
    }

    /// The verdict on the image against its configuration document, once that is read.
    pub open spec fn config_verdict(self, reading: ConfigReadingView) -> Verdict {
        match reading {
            Err(error) => Err(error),
            Ok((config, diff_ids)) => {
                let compared = comparison_verdict(
                    crate::image::manifest::json_in(config),
                    crate::image::manifest::json_in(self.config),
                );
                if compared is Err {
                    compared
                } else if diff_ids != self.diff_ids() {
                    ImageErrorView::refused(
                        "cached layer diff IDs do not match the raw OCI configuration"@,
                    )
                } else {
                    Ok(())
                }
            },
        }
    }

    /// The verdict on the image, given what reading its configuration document comes to.
    pub open spec fn verdict(self, reading: ConfigReadingView) -> Verdict {
        if self.documents_verdict() is Err {
            self.documents_verdict()
        } else {
            self.config_verdict(reading)
        }
    }
}

/// The verdict on the digest of a document that goes by a label: it must be the expected one.
pub open spec fn digest_verdict(
    label: Seq<char>,
    actual: Seq<char>,
    expected: Seq<char>,
) -> Verdict {
    if actual == expected {
        Ok(())
    } else {
        ImageErrorView::refused(
            label + " digest mismatch: expected "@ + expected + ", got "@ + actual,
        )
    }
}

/// What reading a JSON document comes to: its value, or why it holds none.
pub type JsonReadingView = Result<serde_json::Value, Seq<char>>;

/// The verdict on a comparison of the configuration that was read with the cached one: both
/// must be JSON, the one that was read first, and they must hold the same value.
pub open spec fn comparison_verdict(parsed: JsonReadingView, cached: JsonReadingView) -> Verdict {
    match (parsed, cached) {
        (Err(reason), _) => ImageErrorView::refused(
            "failed to compare parsed image configuration: "@ + reason,
        ),
        (_, Err(reason)) => ImageErrorView::refused(
            "failed to compare cached image configuration: "@ + reason,
        ),
        (Ok(parsed), Ok(cached)) => if crate::image::manifest::json_equal(parsed, cached) {
            Ok(())
        } else {
            ImageErrorView::refused(
                "cached image configuration does not match its raw OCI document"@,
            )
        },
    }
}

/// What the result of reading a JSON document says.
pub open spec fn json_reading(value: Result<serde_json::Value, String>) -> JsonReadingView {
    match value {
        Ok(value) => Ok(value),
        Err(reason) => Err(reason@),
    }
}

/// Holds the digest of a document against the expected one.
pub fn check_digest(label: &str, actual: &str, expected: &str) -> (checked: Result<(), ImageError>)
    ensures
        ImageError::verdict(checked) == digest_verdict(label@, actual@, expected@),
{
    if same_text(actual, expected) {
        return Ok(());
    }
    let mut message: String = label.to_owned();
    message.append(" digest mismatch: expected ");
    message.append(expected);
    message.append(", got ");
    message.append(actual);
    Err(ImageError::ConfigParse(message))
}

/// Holds the bytes of a document against the digest that they should have.
pub fn validate_json_digest(
    label: &str,
    bytes: &[u8],
    expected: &str,
) -> (checked: Result<(), ImageError>)
    requires
        bytes@.len() < HASH_LENGTH_LIMIT,
    ensures
        ImageError::verdict(checked) == digest_verdict(
            label@,
            crate::image::hashing::digest_text(crate::image::hashing::sha256(bytes@)),
            expected@,
        ),
{
    check_digest(label, content_digest(bytes).as_str(), expected)
}

/// Holds an image's configuration and layers against its manifest.
pub fn check_manifest(
    image: &CachedImageMetadata,
    manifest: &ManifestSummary,
) -> (checked: Result<(), ImageError>)
    ensures
        ImageError::verdict(checked) == image@.manifest_verdict(manifest@),
{
    if !same_text(manifest.config_digest.as_str(), image.config_digest.as_str()) {
        return Err(config_error("cached config digest does not match the resolved OCI manifest"));
    }
    let raw_config_size: u64 = image.raw_config_json.as_str().as_bytes().len() as u64;
    if manifest.config_size != raw_config_size {
        return Err(config_error("cached config size does not match the resolved OCI manifest"));
    }
    if manifest.layers.len() != image.layers.len() {
        return Err(config_error("cached layer count does not match the resolved OCI manifest"));
    }
    for i in 0..image.layers.len()
        invariant
            manifest.config_digest@ == image.config_digest@,
            manifest.config_size == image@.raw_config().len(),
            manifest.layers@.len() == image.layers@.len(),
            forall|j: int|
                0 <= j < i ==> #[trigger] image@.layers[j].is_described_by(manifest@.layers[j]),
    {
        let cached: &CachedLayerMetadata = &image.layers[i];
        let descriptor: &LayerDescriptor = &manifest.layers[i];
        let same_media_type: bool = match &cached.media_type {
            Some(media_type) => same_text(media_type.as_str(), descriptor.media_type.as_str()),
            None => false,
        };
        let same_size: bool = match cached.size_bytes {
            Some(size) => size == descriptor.size,
            None => false,
        };
        if !same_text(descriptor.digest.as_str(), cached.digest.as_str()) || !same_media_type
            || !same_size {
            assert(!image@.layers[i as int].is_described_by(manifest@.layers[i as int]));
            return Err(
                config_error("cached layer metadata does not match the resolved OCI manifest"),
            );
        }
    }
    Ok(())
}

/// Compares the configuration that was read with the cached one, given what reading each as
/// JSON came to.
pub fn check_comparison(
    parsed: Result<serde_json::Value, String>,
    cached: Result<serde_json::Value, String>,
) -> (checked: Result<(), ImageError>)
    ensures
        ImageError::verdict(checked) == comparison_verdict(
            json_reading(parsed),
            json_reading(cached),
        ),
{
    let parsed: serde_json::Value = match parsed {
        Ok(value) => value,
        Err(reason) => {
            let mut message: String = "failed to compare parsed image configuration: ".to_owned();
            message.append(reason.as_str());
            return Err(ImageError::ConfigParse(message));
        },
    };
    match cached {
        Ok(value) => {
            if same_json(&parsed, &value) {
                Ok(())
            } else {
                Err(config_error("cached image configuration does not match its raw OCI document"))
            }
        },
        Err(reason) => {
            let mut message: String = "failed to compare cached image configuration: ".to_owned();
            message.append(reason.as_str());
            Err(ImageError::ConfigParse(message))
        },
    }
}

/// Holds an image against its configuration document, once that is read.
pub fn check_config(
    image: &CachedImageMetadata,
    reading: ConfigReading,
) -> (checked: Result<(), ImageError>)
    ensures
        ImageError::verdict(checked) == image@.config_verdict(ImageConfig::reading(reading)),
{
    match reading {
        Err(error) => Err(error),
        Ok((config, diff_ids)) => {
            let compared: Result<(), ImageError> = check_comparison(
                parse_json(config.document.as_str()),
                parse_json(image.config.document.as_str()),
            );
            if compared.is_err() {
                return compared;
            }
            if !same_diff_ids(&diff_ids, image) {
                return Err(
                    config_error("cached layer diff IDs do not match the raw OCI configuration"),
                );
            }
            Ok(())
        },
    }
}

fn same_diff_ids(diff_ids: &Vec<String>, image: &CachedImageMetadata) -> (same: bool)
    ensures
        same == (ImageConfig::texts(diff_ids@) == image@.diff_ids()),
{
    let ghost read = ImageConfig::texts(diff_ids@);
    if diff_ids.len() != image.layers.len() {
        assert(read.len() != image@.diff_ids().len());
        return false;
    }
    for i in 0..diff_ids.len()
        invariant
            read == ImageConfig::texts(diff_ids@),
            diff_ids@.len() == image.layers@.len(),
            forall|j: int| 0 <= j < i ==> read[j] == image@.diff_ids()[j],
    {
        if !same_text(diff_ids[i].as_str(), image.layers[i].diff_id.as_str()) {
            assert(read[i as int] != image@.diff_ids()[i as int]);
            return false;
        }
    }
    assert(read =~= image@.diff_ids());
    true
}

/// Holds an image against its configuration's digest and its manifest.
pub fn check_documents(image: &CachedImageMetadata) -> (checked: Result<(), ImageError>)
    requires
        image@.raw_config().len() < HASH_LENGTH_LIMIT,
    ensures
        ImageError::verdict(checked) == image@.documents_verdict(),
{
    let hashed: Result<(), ImageError> = validate_json_digest(
        "image configuration",
        image.raw_config_json.as_str().as_bytes(),
        image.config_digest.as_str(),
    );
    if hashed.is_err() {
        return hashed;
    }
    match parse_manifest(image.raw_manifest_json.as_str()) {
        Ok(manifest) => check_manifest(image, &manifest),
        Err(reason) => {
            let mut message: String = "prepared image manifest: ".to_owned();
            message.append(reason.as_str());
            Err(ImageError::ManifestParse(message))
        },
    }
}

/// Whether `reading` is what `parse_config` makes of a configuration document.
pub open spec fn reads_config<C: Fn(&[u8]) -> ConfigReading>(
    parse_config: C,
    raw_config: Seq<u8>,
    reading: ConfigReading,
) -> bool {
    exists|bytes: &[u8]|
        bytes@ == raw_config && #[trigger] call_ensures(parse_config, (bytes,), reading)
}

/// Whether `verdict` is the one on an image whose configuration document is read with
/// `parse_config`, as far as the checks before that get.
pub open spec fn validates_as<C: Fn(&[u8]) -> ConfigReading>(
    parse_config: C,
    image: ImageView,
    verdict: Verdict,
) -> bool {
    exists|reading: ConfigReading|
        {
            &&& image.documents_verdict() is Ok ==> reads_config(
                parse_config,
                image.raw_config(),
                reading,
            )
            &&& verdict == image.verdict(#[trigger] ImageConfig::reading(reading))
        }
}

/// Whether `parse_config` reads every configuration document in one way.
pub open spec fn reads_one_way<C: Fn(&[u8]) -> ConfigReading>(parse_config: C) -> bool {
    forall|first: &[u8], second: &[u8], one: ConfigReading, other: ConfigReading|
        #[trigger] call_ensures(parse_config, (first,), one) && #[trigger] call_ensures(
            parse_config,
            (second,),
            other,
        ) && first@ == second@ ==> ImageConfig::reading(one) == ImageConfig::reading(other)
}

/// Holds an image against the documents that it was made from. Its configuration document is
/// read, with `parse_config`, only where its digest and its manifest agree with the image.
pub fn validate_image_metadata<C: Fn(&[u8]) -> ConfigReading>(
    image: &CachedImageMetadata,
    parse_config: &C,
) -> (checked: Result<(), ImageError>)
    requires
        image@.raw_config().len() < HASH_LENGTH_LIMIT,
        forall|bytes: &[u8]| call_requires(*parse_config, (bytes,)),
    ensures
        validates_as(*parse_config, image@, ImageError::verdict(checked)),
{
    let documents: Result<(), ImageError> = check_documents(image);
    if let Err(error) = documents {
        let ghost unread: ConfigReading = Err(error);
        assert(image@.verdict(ImageConfig::reading(unread)) == image@.documents_verdict());
        return Err(error);
    }
    let bytes: &[u8] = image.raw_config_json.as_str().as_bytes();
    let reading: ConfigReading = parse_config(bytes);
    assert(reads_config(*parse_config, image@.raw_config(), reading));
    let ghost read = ImageConfig::reading(reading);
    check_config(image, reading)
}

/// Reads the digests of an image's uncompressed layers, in order.
pub fn layer_diff_ids(image: &CachedImageMetadata) -> (ids: Result<Vec<Digest>, ImageError>)
    ensures
        match ids {
            Ok(digests) => {
                &&& image@.diff_ids_verdict() is Ok
                &&& Digest::texts(digests@) == image@.diff_ids()
            },
            Err(error) => image@.diff_ids_verdict() == Err::<(), ImageErrorView>(error@),
        },
{
    let mut digests: Vec<Digest> = Vec::new();
    for i in 0..image.layers.len()
        invariant
            digests@.len() == i,
            forall|j: int|
                0 <= j < i ==> {
                    &&& Digest::accepts(#[trigger] image@.diff_ids()[j])
                    &&& digests@[j]@ == image@.diff_ids()[j]
                },
    {
        match parse_digest(image.layers[i].diff_id.as_str(), "layer diff ID") {
            Ok(digest) => {
                digests.push(digest);
            },
            Err(error) => {
                assert(image@.first_unaccepted(i as int));
                assert(forall|k: int| image@.first_unaccepted(k) ==> k == i);
                return Err(error);
            },
        }
    }
    assert(Digest::texts(digests@) =~= image@.diff_ids());
    Ok(digests)
}

} // verus!
