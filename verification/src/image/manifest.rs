//! What an OCI image manifest says about an image's configuration and layers.

use vstd::prelude::*;

verus! {

/// A layer as the manifest describes it.
#[derive(Clone, Debug, PartialEq, Eq)]
pub struct LayerDescriptor {
    /// Digest of the layer's blob.
    pub digest: String,
    /// Media type of the blob.
    pub media_type: String,
    /// Size of the blob in bytes.
    pub size: u64,
}

/// The parts of an image manifest that an image is held against.
#[derive(Clone, Debug, PartialEq, Eq)]
pub struct ManifestSummary {
    /// Digest of the configuration document.
    pub config_digest: String,
    /// Size of the configuration document in bytes.
    pub config_size: u64,
    /// The layers, from the base up.
    pub layers: Vec<LayerDescriptor>,
}

/// What a [`LayerDescriptor`] says.
pub struct LayerDescriptorView {
    /// Digest of the layer's blob.
    pub digest: Seq<char>,
    /// Media type of the blob.
    pub media_type: Seq<char>,
    /// Size of the blob in bytes.
    pub size: u64,
}

/// What a [`ManifestSummary`] says.
pub struct ManifestView {
    /// Digest of the configuration document.
    pub config_digest: Seq<char>,
    /// Size of the configuration document in bytes.
    pub config_size: u64,
    /// The layers, from the base up.
    pub layers: Seq<LayerDescriptorView>,
}

impl View for LayerDescriptor {
    type V = LayerDescriptorView;

    open spec fn view(&self) -> LayerDescriptorView {
        LayerDescriptorView {
            digest: self.digest@,
            media_type: self.media_type@,
            size: self.size,
        }
    }
}

impl View for ManifestSummary {
    type V = ManifestView;

    open spec fn view(&self) -> ManifestView {
        ManifestView {
            config_digest: self.config_digest@,
            config_size: self.config_size,
            layers: self.layers@.map_values(|layer: LayerDescriptor| layer@),
        }
    }
}

/// The manifest that a JSON document holds, or why it holds none.
pub uninterp spec fn manifest_in(document: Seq<char>) -> Result<ManifestView, Seq<char>>;

/// Calls `from_str` of the `serde_json` crate for the `ImageManifest` of the `oci-spec` crate,
/// and takes out of it, with its accessors, the digest and size of the configuration and the
/// digest, media type and size of each layer in order. The result is the manifest in the
/// document, or the text of the parser's error.
#[verifier::external_body]
pub(crate) fn parse_manifest(document: &str) -> (manifest: Result<ManifestSummary, String>)
    ensures
        match (manifest, manifest_in(document@)) {
            (Ok(found), Ok(expected)) => found@ == expected,
            (Err(reason), Err(expected)) => reason@ == expected,
            _ => false,
        },
{
    let found = serde_json::from_str::<oci_spec::image::ImageManifest>(document);
    found.map_err(|error| error.to_string()).map(|manifest| ManifestSummary {
        config_digest: manifest.config().digest().to_string(),
        config_size: manifest.config().size(),
        layers: manifest.layers().iter().map(|layer| LayerDescriptor {
            digest: layer.digest().to_string(),
            media_type: layer.media_type().as_ref().to_string(),
            size: layer.size(),
        }).collect(),
    })
}

/// A JSON value of the `serde_json` crate.
#[verifier::external_type_specification]
#[verifier::external_body]
pub struct ExJsonValue(serde_json::Value);

/// The value that a JSON document holds, or why it holds none.
pub uninterp spec fn json_in(document: Seq<char>) -> Result<serde_json::Value, Seq<char>>;

/// Calls `from_str` of the `serde_json` crate for its `Value`. The result is the value in the
/// document, or the text of the parser's error.
#[verifier::external_body]
pub(crate) fn parse_json(document: &str) -> (value: Result<serde_json::Value, String>)
    ensures
        match (value, json_in(document@)) {
            (Ok(found), Ok(expected)) => found == expected,
            (Err(reason), Err(expected)) => reason@ == expected,
            _ => false,
        },
{
    serde_json::from_str::<serde_json::Value>(document).map_err(|error| error.to_string())
}

/// Whether two JSON values are the same.
pub uninterp spec fn json_equal(first: serde_json::Value, second: serde_json::Value) -> bool;

/// Calls `eq` of the `serde_json` crate's `Value`: whether the two values are the same.
#[verifier::external_body]
pub(crate) fn same_json(first: &serde_json::Value, second: &serde_json::Value) -> (same: bool)
    ensures
        same == json_equal(*first, *second),
{
    first == second
}

} // verus!
