//! Images: how digests are read and written, and what an image is held against.

use vstd::prelude::*;

use crate::fault::IoFailure;
use crate::image::digest::{parse_digest, Digest};
use crate::image::error::{cache_error, config_error, ImageError, ImageErrorView};
use crate::image::hashing::{content_digest, render_digest};
use crate::image::manifest::ManifestSummary;
use crate::image::metadata::{
    check_comparison, check_config, check_digest, check_documents, check_manifest, layer_diff_ids,
    validate_image_metadata, validate_json_digest, CachedImageMetadata, ConfigReading,
};

verus! {

/// Whether a text is an algorithm's name, a colon and a hash, with no colon in the name.
pub open spec fn is_digest(text: Seq<char>) -> bool {
    exists|name: Seq<char>, hash: Seq<char>|
        {
            &&& #[trigger] (name + seq![':'] + hash) == text
            &&& name.len() > 0
            &&& hash.len() > 0
            &&& !name.contains(':')
        }
}

/// Whether something was refused as a configuration, with this message.
pub open spec fn is_refused<T>(result: Result<T, ImageError>, message: Seq<char>) -> bool {
    result matches Err(ImageError::ConfigParse(text)) && text@ == message
}

/// Whether two checks came to the same.
pub open spec fn same_outcome(one: Result<(), ImageError>, other: Result<(), ImageError>) -> bool {
    match (one, other) {
        (Ok(_), Ok(_)) => true,
        (Err(first), Err(second)) => same_error(first, second),
        _ => false,
    }
}

/// Whether two errors say the same.
pub open spec fn same_error(one: ImageError, other: ImageError) -> bool {
    match (one, other) {
        (ImageError::ConfigParse(first), ImageError::ConfigParse(second)) => first@ == second@,
        (ImageError::ManifestParse(first), ImageError::ManifestParse(second)) => first@ == second@,
        (ImageError::Io(first), ImageError::Io(second)) => first.kind == second.kind
            && first.message@ == second.message@,
        (
            ImageError::Cache { path: first_path, source: first },
            ImageError::Cache { path: second_path, source: second },
        ) => first_path@ == second_path@ && first.kind == second.kind && first.message@
            == second.message@,
        _ => false,
    }
}

/// Errors that say the same are those whose views are the same.
pub proof fn errors_are_told_apart_by_their_views(one: ImageError, other: ImageError)
    ensures
        same_error(one, other) <==> one@ == other@,
{
}

pub(crate) proof fn digests_have_their_grammar(text: Seq<char>)
    ensures
        is_digest(text) <==> Digest::accepts(text),
{
    if is_digest(text) {
        let (name, hash) = choose|name: Seq<char>, hash: Seq<char>|
            {
                &&& #[trigger] (name + seq![':'] + hash) == text
                &&& name.len() > 0
                &&& hash.len() > 0
                &&& !name.contains(':')
            };
        let i = name.len() as int;
        assert forall|j: int| 0 <= j < i implies text[j] != ':' by {
            assert(name.contains(name[j]));
            assert(text[j] == name[j]);
        }
        assert(Digest::splits_at(text, i));
    }
    if Digest::accepts(text) {
        let i = choose|i: int| Digest::splits_at(text, i);
        let name = text.take(i);
        let hash = text.skip(i + 1);
        assert(name + seq![':'] + hash =~= text);
        assert(!name.contains(':')) by {
            if name.contains(':') {
                let j = choose|j: int| 0 <= j < name.len() && name[j] == ':';
                assert(text[j] == ':');
            }
        }
    }
}

/// A text is read as a digest exactly where it has the form of one, and is written back as it
/// was read.
pub proof fn digests_are_read_and_written_back(
    text: &str,
    digest: Option<Digest>,
    written: String,
)
    requires
        call_ensures(Digest::parse, (text,), digest),
        digest matches Some(found) ==> call_ensures(Digest::text, (&found,), written),
    ensures
        digest is Some <==> is_digest(text@),
        digest is Some ==> written@ == text@,
{
    digests_have_their_grammar(text@);
}

/// A digest that is asked for by a label is read as digests are; the refusal of anything else
/// names the label and the text.
pub proof fn refused_digests_are_named(
    value: &str,
    label: &str,
    digest: Result<Digest, ImageError>,
)
    requires
        call_ensures(parse_digest, (value, label), digest),
    ensures
        is_digest(value@) ==> (digest matches Ok(found) && found@ == value@),
        !is_digest(value@) ==> is_refused(digest, "invalid "@ + label@ + ": "@ + value@),
{
    digests_have_their_grammar(value@);
}

/// The value of a hexadecimal digit, in lower case.
pub open spec fn digit_value(c: char) -> int {
    if '0' as int <= c as int <= '9' as int {
        c as int - '0' as int
    } else if 'a' as int <= c as int <= 'f' as int {
        c as int - 'a' as int + 10
    } else {
        -1
    }
}

/// Whether a text is the digest of a hash: the algorithm's name, then each byte as two digits.
pub open spec fn is_digest_of(text: Seq<char>, hash: Seq<u8>) -> bool {
    &&& text.len() == 7 + 2 * hash.len()
    &&& text.take(7) == "sha256:"@
    &&& forall|i: int|
        0 <= i < hash.len() ==> {
            &&& digit_value(text[7 + 2 * i]) >= 0
            &&& digit_value(text[8 + 2 * i]) >= 0
            &&& digit_value(text[7 + 2 * i]) * 16 + digit_value(text[8 + 2 * i])
                == #[trigger] hash[i]
        }
}

pub(crate) proof fn digests_spell_hashes(hash: Seq<u8>)
    ensures
        is_digest_of(crate::image::hashing::digest_text(hash), hash),
{
    reveal_strlit("sha256:");
    let text = crate::image::hashing::digest_text(hash);
    let digits = crate::image::hashing::hex_text(hash);
    assert(text.take(7) =~= "sha256:"@);
    assert forall|i: int| 0 <= i < hash.len() implies {
        &&& digit_value(text[7 + 2 * i]) >= 0
        &&& digit_value(text[8 + 2 * i]) >= 0
        &&& digit_value(text[7 + 2 * i]) * 16 + digit_value(text[8 + 2 * i]) == #[trigger] hash[i]
    } by {
        assert(text[7 + 2 * i] == digits[2 * i]);
        assert(text[8 + 2 * i] == digits[2 * i + 1]);
        assert((2 * i) / 2 == i && (2 * i) % 2 == 0);
        assert((2 * i + 1) / 2 == i && (2 * i + 1) % 2 == 1);
        assert(digits[2 * i] == crate::image::hashing::hex_char(hash[i] / 16));
        assert(digits[2 * i + 1] == crate::image::hashing::hex_char(hash[i] % 16));
    }
}

/// A hash is written out byte by byte, and the digest of some bytes is their hash written out.
pub proof fn hashes_are_spelled_out(
    hash: &[u8],
    text: String,
    data: &[u8],
    digest: String,
)
    requires
        call_ensures(render_digest, (hash,), text),
        call_ensures(content_digest, (data,), digest),
    ensures
        is_digest_of(text@, hash@),
        is_digest_of(digest@, crate::image::hashing::sha256(data@)),
        data@.len() < 0x2000_0000_0000_0000 ==> call_requires(content_digest, (data,)),
{
    digests_spell_hashes(hash@);
    digests_spell_hashes(crate::image::hashing::sha256(data@));
}

/// Errors carry what they were made with.
pub proof fn errors_carry_what_they_were_made_with(
    message: &str,
    error: ImageError,
    path: &[u8],
    source: IoFailure,
    failure: ImageError,
)
    requires
        call_ensures(config_error, (message,), error),
        call_ensures(cache_error, (path, source), failure),
    ensures
        error matches ImageError::ConfigParse(text) && text@ == message@,
        failure matches ImageError::Cache { path: kept, source: cause } && kept@ == path@
            && cause.kind == source.kind && cause.message@ == source.message@,
{
}

/// A document passes by its digest exactly where the digest is the expected one, and the refusal
/// names all three.
pub proof fn digests_are_compared(
    label: &str,
    actual: &str,
    expected: &str,
    checked: Result<(), ImageError>,
)
    requires
        call_ensures(check_digest, (label, actual, expected), checked),
    ensures
        checked is Ok <==> actual@ == expected@,
        checked is Err ==> is_refused(
            checked,
            label@ + " digest mismatch: expected "@ + expected@ + ", got "@ + actual@,
        ),
{
}

/// A document passes exactly where its own digest is the expected one.
pub proof fn documents_are_held_against_their_digests(
    label: &str,
    bytes: &[u8],
    expected: &str,
    digest: String,
    checked: Result<(), ImageError>,
)
    requires
        call_ensures(content_digest, (bytes,), digest),
        call_ensures(validate_json_digest, (label, bytes, expected), checked),
    ensures
        bytes@.len() < 0x2000_0000_0000_0000 ==> call_requires(
            validate_json_digest,
            (label, bytes, expected),
        ),
        checked is Ok <==> digest@ == expected@,
        checked is Err ==> is_refused(
            checked,
            label@ + " digest mismatch: expected "@ + expected@ + ", got "@ + digest@,
        ),
{
}

/// Whether the layer of an image at `i` is the one that the manifest has there.
pub open spec fn layer_matches(
    image: &CachedImageMetadata,
    manifest: &ManifestSummary,
    i: int,
) -> bool {
    let cached = image.layers@[i];
    let described = manifest.layers@[i];
    &&& cached.digest@ == described.digest@
    &&& cached.media_type matches Some(media_type) && media_type@ == described.media_type@
    &&& cached.size_bytes matches Some(size) && size == described.size
}

/// Whether an image's configuration document is the one that a manifest names.
pub open spec fn config_matches(image: &CachedImageMetadata, manifest: &ManifestSummary) -> bool {
    &&& image.config_digest@ == manifest.config_digest@
    &&& vstd::utf8::encode_utf8(image.raw_config_json@).len() == manifest.config_size
}

/// An image passes by its manifest exactly where the configuration's digest and size, the number
/// of layers and each layer's digest, media type and size are those of the manifest, in order.
/// The refusal names the first of these that differs.
pub proof fn images_are_held_against_manifests(
    image: &CachedImageMetadata,
    manifest: &ManifestSummary,
    checked: Result<(), ImageError>,
)
    requires
        call_ensures(check_manifest, (image, manifest), checked),
    ensures
        checked is Ok <==> {
            &&& config_matches(image, manifest)
            &&& image.layers@.len() == manifest.layers@.len()
            &&& forall|i: int|
                0 <= i < image.layers@.len() ==> #[trigger] layer_matches(image, manifest, i)
        },
        image.config_digest@ != manifest.config_digest@ ==> is_refused(
            checked,
            "cached config digest does not match the resolved OCI manifest"@,
        ),
        image.config_digest@ == manifest.config_digest@ && !config_matches(image, manifest)
            ==> is_refused(
            checked,
            "cached config size does not match the resolved OCI manifest"@,
        ),
        config_matches(image, manifest) && image.layers@.len() != manifest.layers@.len()
            ==> is_refused(
            checked,
            "cached layer count does not match the resolved OCI manifest"@,
        ),
        config_matches(image, manifest) && image.layers@.len() == manifest.layers@.len()
            && checked is Err ==> is_refused(
            checked,
            "cached layer metadata does not match the resolved OCI manifest"@,
        ),
{
    assert(image@.layers.len() == image.layers@.len());
    assert(manifest@.layers.len() == manifest.layers@.len());
    assert forall|i: int|
        0 <= i < image.layers@.len() && image.layers@.len()
            == manifest.layers@.len() implies #[trigger] layer_matches(image, manifest, i)
        == image@.layers[i].is_described_by(manifest@.layers[i]) by {}
    if config_matches(image, manifest) && image.layers@.len() == manifest.layers@.len() {
        if checked is Ok {
            assert forall|i: int| 0 <= i < image.layers@.len() implies #[trigger] layer_matches(
                image,
                manifest,
                i,
            ) by {
                assert(image@.layers[i].is_described_by(manifest@.layers[i]));
            }
        }
        if forall|i: int|
            0 <= i < image.layers@.len() ==> #[trigger] layer_matches(image, manifest, i) {
            assert forall|i: int|
                0 <= i < image@.layers.len() implies #[trigger] image@.layers[i].is_described_by(
                manifest@.layers[i],
            ) by {
                assert(layer_matches(image, manifest, i));
            }
        }
    }
}

/// Two configurations pass exactly where both are JSON and hold the same value. The refusal says
/// which of them could not be read, the one that was read first, or that they differ.
pub proof fn configurations_are_compared(
    parsed: Result<serde_json::Value, String>,
    cached: Result<serde_json::Value, String>,
    checked: Result<(), ImageError>,
)
    requires
        call_ensures(check_comparison, (parsed, cached), checked),
    ensures
        match (parsed, cached) {
            (Ok(one), Ok(other)) => if crate::image::manifest::json_equal(one, other) {
                checked is Ok
            } else {
                is_refused(
                    checked,
                    "cached image configuration does not match its raw OCI document"@,
                )
            },
            (Err(reason), _) => is_refused(
                checked,
                "failed to compare parsed image configuration: "@ + reason@,
            ),
            (Ok(_), Err(reason)) => is_refused(
                checked,
                "failed to compare cached image configuration: "@ + reason@,
            ),
        },
{
}

/// Whether the digests of uncompressed layers that were read are those of an image, in order.
pub open spec fn diff_ids_match(diff_ids: Seq<String>, image: &CachedImageMetadata) -> bool {
    &&& diff_ids.len() == image.layers@.len()
    &&& forall|i: int|
        0 <= i < diff_ids.len() ==> #[trigger] diff_ids[i]@ == image.layers@[i].diff_id@
}

/// An image passes by its configuration document exactly where the document could be read, the
/// configuration in it is the cached one, and the layers that it names are those of the image,
/// in order. A document that could not be read is refused as the reading was.
pub proof fn images_are_held_against_configurations(
    image: &CachedImageMetadata,
    reading: ConfigReading,
    parsed: Result<serde_json::Value, String>,
    cached: Result<serde_json::Value, String>,
    compared: Result<(), ImageError>,
    checked: Result<(), ImageError>,
)
    requires
        reading matches Ok((config, _)) ==> reads_json(config.document@, parsed),
        reads_json(image.config.document@, cached),
        call_ensures(check_comparison, (parsed, cached), compared),
        call_ensures(check_config, (image, reading), checked),
    ensures
        match reading {
            Err(error) => same_outcome(checked, Err(error)),
            Ok((_, diff_ids)) => if compared is Err {
                same_outcome(checked, compared)
            } else if diff_ids_match(diff_ids@, image) {
                checked is Ok
            } else {
                is_refused(
                    checked,
                    "cached layer diff IDs do not match the raw OCI configuration"@,
                )
            },
        },
{
    if let Ok((_, diff_ids)) = reading {
        let read = crate::image::metadata::ImageConfig::texts(diff_ids@);
        let held = image@.diff_ids();
        assert(read.len() == diff_ids@.len());
        assert(held.len() == image.layers@.len());
        assert(forall|i: int| 0 <= i < read.len() ==> #[trigger] read[i] == diff_ids@[i]@);
        assert(forall|i: int|
            0 <= i < held.len() ==> #[trigger] held[i] == image.layers@[i].diff_id@);
        if diff_ids_match(diff_ids@, image) {
            assert forall|i: int| 0 <= i < read.len() implies read[i] == held[i] by {
                assert(diff_ids@[i]@ == image.layers@[i].diff_id@);
            }
            assert(read =~= held);
        } else if read == held {
            assert forall|i: int| 0 <= i < diff_ids@.len() implies #[trigger] diff_ids@[i]@
                == image.layers@[i].diff_id@ by {
                assert(read[i] == held[i]);
            }
        }
    }
}

/// Whether reading a document as JSON comes to this.
pub open spec fn reads_json(
    document: Seq<char>,
    read: Result<serde_json::Value, String>,
) -> bool {
    match (crate::image::manifest::json_in(document), read) {
        (Ok(value), Ok(found)) => value == found,
        (Err(reason), Err(found)) => reason == found@,
        _ => false,
    }
}

/// An image passes by its documents exactly where its configuration document has its digest, its
/// manifest document is a manifest, and it passes by that manifest. Each is refused in that
/// order, and as that check refuses it.
pub proof fn images_are_held_against_documents(
    image: &CachedImageMetadata,
    raw_config: &[u8],
    digest: String,
    manifest: ManifestSummary,
    by_manifest: Result<(), ImageError>,
    checked: Result<(), ImageError>,
)
    requires
        raw_config@ == vstd::utf8::encode_utf8(image.raw_config_json@),
        call_ensures(content_digest, (raw_config,), digest),
        crate::image::manifest::manifest_in(image.raw_manifest_json@) matches Ok(found)
            ==> manifest@ == found,
        call_ensures(check_manifest, (image, &manifest), by_manifest),
        call_ensures(check_documents, (image,), checked),
    ensures
        raw_config@.len() < 0x2000_0000_0000_0000 ==> call_requires(check_documents, (image,)),
        digest@ != image.config_digest@ ==> is_refused(
            checked,
            "image configuration"@ + " digest mismatch: expected "@ + image.config_digest@
                + ", got "@ + digest@,
        ),
        digest@ == image.config_digest@ ==> match crate::image::manifest::manifest_in(
            image.raw_manifest_json@,
        ) {
            Ok(_) => same_outcome(checked, by_manifest),
            Err(reason) => checked matches Err(ImageError::ManifestParse(message)) && message@
                == "prepared image manifest: "@ + reason,
        },
{
}

/// What a manifest's summary says is what its fields hold.
pub proof fn manifests_are_seen_whole(manifest: ManifestSummary, i: int)
    requires
        0 <= i < manifest.layers@.len(),
    ensures
        manifest@.config_digest == manifest.config_digest@,
        manifest@.config_size == manifest.config_size,
        manifest@.layers.len() == manifest.layers@.len(),
        manifest@.layers[i].digest == manifest.layers@[i].digest@,
        manifest@.layers[i].media_type == manifest.layers@[i].media_type@,
        manifest@.layers[i].size == manifest.layers@[i].size,
{
}

/// A whole image passes exactly where it passes by its documents and then by its configuration,
/// which is read from the bytes of its own configuration document and only then. It is refused
/// as the first check that fails refuses it.
pub proof fn images_pass_both_checks<C: Fn(&[u8]) -> ConfigReading>(
    image: &CachedImageMetadata,
    parse_config: &C,
    by_documents: Result<(), ImageError>,
    checked: Result<(), ImageError>,
)
    requires
        call_ensures(check_documents, (image,), by_documents),
        call_ensures(validate_image_metadata::<C>, (image, parse_config), checked),
    ensures
        by_documents is Err ==> same_outcome(checked, by_documents),
        by_documents is Ok ==> exists|raw_config: &[u8], reading: ConfigReading|
            {
                &&& raw_config@ == vstd::utf8::encode_utf8(image.raw_config_json@)
                &&& #[trigger] call_ensures(*parse_config, (raw_config,), reading)
                &&& forall|by_config: Result<(), ImageError>| #[trigger]
                    call_ensures(check_config, (image, reading), by_config) ==> same_outcome(
                        checked,
                        by_config,
                    )
            },
{
    let verdict = ImageError::verdict(checked);
    let reading = choose|reading: ConfigReading|
        {
            &&& image@.documents_verdict() is Ok ==> crate::image::metadata::reads_config(
                *parse_config,
                image@.raw_config(),
                reading,
            )
            &&& verdict == image@.verdict(
                #[trigger] crate::image::metadata::ImageConfig::reading(reading),
            )
        };
    if by_documents is Ok {
        assert(image@.documents_verdict() is Ok);
        let raw_config = choose|bytes: &[u8]|
            bytes@ == image@.raw_config() && #[trigger] call_ensures(
                *parse_config,
                (bytes,),
                reading,
            );
        assert(call_ensures(*parse_config, (raw_config,), reading));
        assert forall|by_config: Result<(), ImageError>| #[trigger]
            call_ensures(check_config, (image, reading), by_config) implies same_outcome(
            checked,
            by_config,
        ) by {
            assert(ImageError::verdict(by_config) == verdict);
        }
    } else {
        assert(ImageError::verdict(by_documents) == verdict);
    }
}

/// Any image of ordinary size can be validated, with a parser that takes every document.
pub proof fn any_image_can_be_validated<C: Fn(&[u8]) -> ConfigReading>(
    image: &CachedImageMetadata,
    parse_config: &C,
)
    requires
        vstd::utf8::encode_utf8(image.raw_config_json@).len() < 0x2000_0000_0000_0000,
        forall|bytes: &[u8]| call_requires(*parse_config, (bytes,)),
    ensures
        call_requires(validate_image_metadata::<C>, (image, parse_config)),
{
}

/// The layers' digests are read one by one, in order, all of them or none. The refusal names the
/// first that is no digest.
pub proof fn layers_are_read_in_order(
    image: &CachedImageMetadata,
    diff_ids: Result<Vec<Digest>, ImageError>,
)
    requires
        call_ensures(layer_diff_ids, (image,), diff_ids),
    ensures
        diff_ids is Ok <==> forall|i: int|
            0 <= i < image.layers@.len() ==> is_digest(#[trigger] image.layers@[i].diff_id@),
        diff_ids matches Ok(digests) ==> {
            &&& digests@.len() == image.layers@.len()
            &&& forall|i: int|
                0 <= i < digests@.len() ==> #[trigger] digests@[i]@ == image.layers@[i].diff_id@
        },
        diff_ids is Err ==> exists|i: int|
            {
                &&& 0 <= i < image.layers@.len()
                &&& !is_digest(#[trigger] image.layers@[i].diff_id@)
                &&& forall|j: int| 0 <= j < i ==> is_digest(#[trigger] image.layers@[j].diff_id@)
                &&& is_refused(
                    diff_ids,
                    "invalid "@ + "layer diff ID"@ + ": "@ + image.layers@[i].diff_id@,
                )
            },
{
    let names = image@.diff_ids();
    assert(names.len() == image.layers@.len());
    assert forall|i: int| 0 <= i < names.len() implies #[trigger] names[i]
        == image.layers@[i].diff_id@ && (is_digest(names[i]) <==> Digest::accepts(names[i])) by {
        digests_have_their_grammar(names[i]);
    }
    match diff_ids {
        Ok(digests) => {
            let texts = Digest::texts(digests@);
            assert(texts.len() == digests@.len());
            assert forall|i: int| 0 <= i < digests@.len() implies #[trigger] digests@[i]@
                == image.layers@[i].diff_id@ by {
                assert(texts[i] == names[i]);
            }
            assert forall|i: int| 0 <= i < image.layers@.len() implies is_digest(
                #[trigger] image.layers@[i].diff_id@,
            ) by {
                assert(Digest::accepts(names[i]));
            }
        },
        Err(error) => {
            first_bad_layer_exists(image);
            let k = choose|i: int| image@.first_unaccepted(i);
            assert(image@.first_unaccepted(k));
            assert(names[k] == image.layers@[k].diff_id@);
            assert forall|j: int| 0 <= j < k implies is_digest(
                #[trigger] image.layers@[j].diff_id@,
            ) by {
                assert(Digest::accepts(names[j]));
            }
        },
    }
}

proof fn first_bad_layer_exists(image: &CachedImageMetadata)
    requires
        !image@.diff_ids_accepted(),
    ensures
        exists|i: int| image@.first_unaccepted(i),
{
    let names = image@.diff_ids();
    let bad = choose|i: int| 0 <= i < names.len() && !Digest::accepts(#[trigger] names[i]);
    first_bad_layer_before(image, bad);
}

proof fn first_bad_layer_before(image: &CachedImageMetadata, bad: int)
    requires
        0 <= bad < image@.diff_ids().len(),
        !Digest::accepts(image@.diff_ids()[bad]),
    ensures
        exists|i: int| image@.first_unaccepted(i),
    decreases bad,
{
    let names = image@.diff_ids();
    if exists|j: int| 0 <= j < bad && !Digest::accepts(#[trigger] names[j]) {
        let j = choose|j: int| 0 <= j < bad && !Digest::accepts(#[trigger] names[j]);
        first_bad_layer_before(image, j);
    } else {
        assert(image@.first_unaccepted(bad));
    }
}

/// What an error's view says is what the error holds.
pub proof fn errors_are_seen_whole(error: ImageError)
    ensures
        match error {
            ImageError::ConfigParse(message) => error@ == ImageErrorView::ConfigParse(message@),
            ImageError::ManifestParse(message) => error@ == ImageErrorView::ManifestParse(message@),
            ImageError::Io(failure) => error@ == ImageErrorView::Io(failure@),
            ImageError::Cache { path, source } => error@ == (ImageErrorView::Cache {
                path: path@,
                source: source@,
            }),
        },
{
}

/// A digest is written out as it reads, and a copy of it reads the same.
pub proof fn digests_are_written_as_they_read(digest: Digest, text: String, copy: Digest)
    requires
        call_ensures(Digest::text, (&digest,), text),
        call_ensures(Digest::clone, (&digest,), copy),
    ensures
        text@ == digest@,
        is_digest(text@),
        copy@ == digest@,
{
    digests_have_their_grammar(text@);
}

/// What has no condition can be asked for at any time.
pub proof fn anything_can_be_held_against_an_image(
    image: &CachedImageMetadata,
    manifest: &ManifestSummary,
    reading: ConfigReading,
    parsed: Result<serde_json::Value, String>,
    cached: Result<serde_json::Value, String>,
    digest: Digest,
    text: &str,
    label: &str,
    expected: &str,
    bytes: &[u8],
    source: IoFailure,
)
    ensures
        call_requires(Digest::parse, (text,)),
        call_requires(Digest::text, (&digest,)),
        call_requires(parse_digest, (text, label)),
        call_requires(render_digest, (bytes,)),
        call_requires(config_error, (text,)),
        call_requires(cache_error, (bytes, source)),
        call_requires(check_digest, (label, text, expected)),
        call_requires(check_manifest, (image, manifest)),
        call_requires(check_comparison, (parsed, cached)),
        call_requires(check_config, (image, reading)),
        call_requires(layer_diff_ids, (image,)),
{
}

} // verus!
