//! Bundles: what a prepared root is bound to, and what an export of one needs.

use vstd::prelude::*;

use crate::image::digest::Digest;
use crate::image::error::ImageError;
use crate::image::export::{assemble_export, export_inputs, ExportInputs};
use crate::image::metadata::{layer_diff_ids, CachedImageMetadata, ConfigReading};
use crate::image::prepared::{
    check_derivation, check_identity, check_root, platform_name, prepared_platform_name,
    validate_metadata, validate_pinned_reference, FlatRootfsRef, Platform, PreparedRootMetadata,
    PreparedRootPlatform, Reference,
};

verus! {

/// Whether two optional texts are the same.
pub open spec fn same_option(one: Option<String>, other: Option<String>) -> bool {
    match (one, other) {
        (Some(first), Some(second)) => first@ == second@,
        (None, None) => true,
        _ => false,
    }
}

/// Whether a text is the name of a platform: its parts in order, with a slash between each.
pub open spec fn is_name_of(
    name: Seq<char>,
    os: String,
    arch: String,
    variant: Option<String>,
) -> bool {
    let stem = os@ + seq!['/'] + arch@;
    match variant {
        Some(variant) => name == stem + seq!['/'] + variant@,
        None => name == stem,
    }
}

proof fn names_have_slashes(os: String, arch: String, variant: Option<String>)
    ensures
        is_name_of(
            (crate::image::prepared::PlatformView {
                os: os@,
                arch: arch@,
                variant: Reference::optional(variant),
            }).name(),
            os,
            arch,
            variant,
        ),
{
    reveal_strlit("/");
    assert("/"@ =~= seq!['/']);
}

/// Platforms are named by their parts.
pub proof fn platforms_are_named_by_their_parts(
    platform: Platform,
    name: String,
    prepared: PreparedRootPlatform,
    prepared_name: String,
)
    requires
        call_ensures(platform_name, (&platform,), name),
        call_ensures(prepared_platform_name, (&prepared,), prepared_name),
    ensures
        is_name_of(name@, platform.os, platform.arch, platform.variant),
        is_name_of(prepared_name@, prepared.os, prepared.architecture, prepared.variant),
{
    names_have_slashes(platform.os, platform.arch, platform.variant);
    names_have_slashes(prepared.os, prepared.architecture, prepared.variant);
}

/// Whether a reference is pinned by this digest.
pub open spec fn is_pinned_by(reference: Reference, digest: Seq<char>) -> bool {
    reference.digest matches Some(pin) && pin@ == digest
}

/// A reference passes exactly where it is pinned by the manifest's digest; the refusal names
/// both digests, or the reference that has none.
pub proof fn references_are_pinned(
    reference: Reference,
    manifest_digest: Digest,
    checked: Result<(), ImageError>,
)
    requires
        call_ensures(validate_pinned_reference, (&reference, &manifest_digest), checked),
    ensures
        checked is Ok <==> is_pinned_by(reference, manifest_digest@),
        match reference.digest {
            Some(pin) => pin@ != manifest_digest@ ==> crate::laws::images::is_refused(
                checked,
                "image reference digest "@ + pin@ + " does not match manifest "@
                    + manifest_digest@,
            ),
            None => crate::laws::images::is_refused(
                checked,
                "prepared-root source must be pinned by digest: "@ + reference.text@,
            ),
        },
{
}

/// Whether a bundle is for a platform.
pub open spec fn is_for_platform(metadata: PreparedRootMetadata, platform: Platform) -> bool {
    &&& metadata.platform.os@ == platform.os@
    &&& metadata.platform.architecture@ == platform.arch@
    &&& same_option(metadata.platform.variant, platform.variant)
}

/// Whether a bundle is of this version and for this reference and platform.
pub open spec fn is_asked_for(
    metadata: PreparedRootMetadata,
    reference: Reference,
    platform: Platform,
) -> bool {
    &&& metadata.schema == 1
    &&& metadata.source_reference@ == reference.text@
    &&& is_for_platform(metadata, platform)
}

/// A bundle passes as the one asked for exactly where its version, its source and its platform
/// are those asked for and the reference is pinned by the digest of its image's manifest, which
/// is then given back. The first of these that does not hold is named.
pub proof fn bundles_are_the_ones_asked_for(
    metadata: PreparedRootMetadata,
    reference: Reference,
    platform: Platform,
    expected_name: String,
    found_name: String,
    manifest_digest: Result<Digest, ImageError>,
)
    requires
        call_ensures(platform_name, (&platform,), expected_name),
        call_ensures(prepared_platform_name, (&metadata.platform,), found_name),
        call_ensures(check_identity, (&metadata, &reference, &platform), manifest_digest),
    ensures
        manifest_digest is Ok <==> {
            &&& is_asked_for(metadata, reference, platform)
            &&& crate::laws::images::is_digest(metadata.image.manifest_digest@)
            &&& is_pinned_by(reference, metadata.image.manifest_digest@)
        },
        manifest_digest matches Ok(digest) ==> digest@ == metadata.image.manifest_digest@,
        metadata.schema != 1 ==> exists|number: Seq<char>|
            crate::laws::texts::writes(number, metadata.schema as int) && #[trigger] crate::laws::images::is_refused(
                manifest_digest,
                "unsupported prepared-root schema "@ + number,
            ),
        metadata.schema == 1 && metadata.source_reference@ != reference.text@ ==> crate::laws::images::is_refused(
            manifest_digest,
            "prepared root source mismatch: expected "@ + reference.text@ + ", got "@
                + metadata.source_reference@,
        ),
        metadata.schema == 1 && metadata.source_reference@ == reference.text@ && !is_for_platform(
            metadata,
            platform,
        ) ==> crate::laws::images::is_refused(
            manifest_digest,
            "prepared root platform mismatch: expected "@ + expected_name@ + ", got "@
                + found_name@,
        ),
        is_asked_for(metadata, reference, platform) && !crate::laws::images::is_digest(metadata.image.manifest_digest@)
            ==> crate::laws::images::is_refused(
            manifest_digest,
            "invalid "@ + "image manifest digest"@ + ": "@ + metadata.image.manifest_digest@,
        ),
        is_asked_for(metadata, reference, platform) && crate::laws::images::is_digest(metadata.image.manifest_digest@)
            ==> match reference.digest {
            Some(pin) => pin@ != metadata.image.manifest_digest@ ==> crate::laws::images::is_refused(
                manifest_digest,
                "image reference digest "@ + pin@ + " does not match manifest "@
                    + metadata.image.manifest_digest@,
            ),
            None => crate::laws::images::is_refused(
                manifest_digest,
                "prepared-root source must be pinned by digest: "@ + reference.text@,
            ),
        },
{
    crate::laws::images::digests_have_their_grammar(metadata.image.manifest_digest@);
    crate::laws::texts::decimals_are_written_numbers(metadata.schema as nat);
    if metadata.schema != 1 {
        assert(crate::laws::images::is_refused(
            manifest_digest,
            "unsupported prepared-root schema "@ + crate::text::decimal_text(
                metadata.schema as nat,
            ),
        ));
    }
    assert(metadata@.platform == platform@ <==> is_for_platform(metadata, platform));
}

/// A bundle's root passes exactly where it is of this version, belongs to the image's manifest
/// and was made by this materializer, and the image's layers are named by digests, which are then
/// given back in order. The first of these that does not hold is named.
pub proof fn roots_belong_to_their_images(
    metadata: PreparedRootMetadata,
    materializer_abi: u32,
    named: Result<Vec<Digest>, ImageError>,
    diff_ids: Result<Vec<Digest>, ImageError>,
)
    requires
        call_ensures(layer_diff_ids, (&metadata.image,), named),
        call_ensures(check_root, (&metadata, materializer_abi), diff_ids),
    ensures
        ({
            let belongs = metadata.root.schema == 1 && metadata.root.manifest_digest@
                == metadata.image.manifest_digest@;
            let made_here = metadata.root.materializer_abi == materializer_abi;
            &&& diff_ids is Ok <==> belongs && made_here && named is Ok
            &&& !belongs ==> crate::laws::images::is_refused(
                diff_ids,
                "prepared root does not match its image manifest"@,
            )
            &&& belongs && !made_here ==> exists|expected: Seq<char>, found: Seq<char>|
                {
                    &&& crate::laws::texts::writes(expected, materializer_abi as int)
                    &&& crate::laws::texts::writes(found, metadata.root.materializer_abi as int)
                    &&& #[trigger] crate::laws::images::is_refused(
                        diff_ids,
                        "prepared root materializer ABI mismatch: expected "@ + expected
                            + ", got "@ + found,
                    )
                }
            &&& belongs && made_here ==> match (named, diff_ids) {
                (Ok(first), Ok(second)) => {
                    &&& first@.len() == second@.len()
                    &&& forall|i: int|
                        0 <= i < first@.len() ==> #[trigger] first@[i]@ == second@[i]@
                },
                (Err(first), Err(second)) => crate::laws::images::same_error(first, second),
                _ => false,
            }
        }),
{
    let expected = crate::text::decimal_text(materializer_abi as nat);
    let found = crate::text::decimal_text(metadata.root.materializer_abi as nat);
    crate::laws::texts::decimals_are_written_numbers(materializer_abi as nat);
    crate::laws::texts::decimals_are_written_numbers(metadata.root.materializer_abi as nat);
    let belongs = metadata.root.schema == 1 && metadata.root.manifest_digest@
        == metadata.image.manifest_digest@;
    if belongs && metadata.root.materializer_abi != materializer_abi {
        assert(crate::laws::images::is_refused(
            diff_ids,
            "prepared root materializer ABI mismatch: expected "@ + expected + ", got "@ + found,
        ));
    }
    if let (Ok(first), Ok(second)) = (named, diff_ids) {
        assert(Digest::texts(first@) == Digest::texts(second@));
        assert(Digest::texts(first@).len() == first@.len());
        assert(Digest::texts(second@).len() == second@.len());
        assert forall|i: int| 0 <= i < first@.len() implies #[trigger] first@[i]@
            == second@[i]@ by {
            assert(Digest::texts(first@)[i] == Digest::texts(second@)[i]);
        }
    }
    if let (Err(first), Err(second)) = (named, diff_ids) {
        if belongs && metadata.root.materializer_abi == materializer_abi {
            crate::laws::images::errors_are_told_apart_by_their_views(first, second);
        }
    }
}

/// A bundle's root passes by its derivation exactly where its derivation digest is what its
/// inputs derive to and its artifact is named by a digest.
pub proof fn roots_are_derived_from_their_inputs(
    metadata: PreparedRootMetadata,
    derived: Digest,
    checked: Result<(), ImageError>,
)
    requires
        call_ensures(check_derivation, (&metadata, &derived), checked),
    ensures
        checked is Ok <==> metadata.root.derivation_digest@ == derived@ && crate::laws::images::is_digest(
            metadata.root.artifact_digest@,
        ),
        metadata.root.derivation_digest@ != derived@ ==> crate::laws::images::is_refused(
            checked,
            "prepared root derivation digest does not match its inputs"@,
        ),
        metadata.root.derivation_digest@ == derived@ && checked is Err ==> crate::laws::images::is_refused(
            checked,
            "invalid "@ + "flat artifact digest"@ + ": "@ + metadata.root.artifact_digest@,
        ),
{
    crate::laws::images::digests_have_their_grammar(metadata.root.artifact_digest@);
}

/// Whether a verdict says what a check came to.
pub open spec fn says(
    verdict: crate::image::error::Verdict,
    checked: Result<(), ImageError>,
) -> bool {
    match (verdict, checked) {
        (Ok(_), Ok(_)) => true,
        (Err(said), Err(error)) => said == error@,
        _ => false,
    }
}

/// A bundle passes exactly where it passes every check, in this order: that it is the one asked
/// for, that its image agrees with its documents, that its root belongs to its image, and that
/// the root is derived from the image's inputs. The derivation is computed from the manifest's
/// digest, the layers' digests in order and the platform asked for. The bundle is refused as the
/// first check that fails refuses it.
pub proof fn bundles_pass_every_check<
    C: Fn(&[u8]) -> ConfigReading,
    D: Fn(&Digest, &Vec<Digest>, &Platform) -> Digest,
>(
    metadata: &PreparedRootMetadata,
    reference: &Reference,
    platform: &Platform,
    materializer_abi: u32,
    parse_config: &C,
    derive: &D,
    identity: Result<Digest, ImageError>,
    rooted: Result<Vec<Digest>, ImageError>,
    checked: Result<(), ImageError>,
)
    requires
        call_ensures(check_identity, (metadata, reference, platform), identity),
        call_ensures(check_root, (metadata, materializer_abi), rooted),
        call_ensures(
            validate_metadata::<C, D>,
            (metadata, reference, platform, materializer_abi, parse_config, derive),
            checked,
        ),
    ensures
        identity matches Err(error) ==> crate::laws::images::same_outcome(checked, Err(error)),
        identity is Ok ==> exists|image: crate::image::error::Verdict|
            {
                &&& #[trigger] crate::image::metadata::validates_as(
                    *parse_config,
                    metadata.image@,
                    image,
                )
                &&& image is Err ==> says(image, checked)
                &&& image is Ok ==> match rooted {
                    Err(error) => crate::laws::images::same_outcome(checked, Err(error)),
                    Ok(_) => exists|
                        manifest_digest: &Digest,
                        diff_ids: &Vec<Digest>,
                        derived: Digest,
                    |
                        {
                            &&& manifest_digest@ == metadata.image.manifest_digest@
                            &&& diff_ids@.len() == metadata.image.layers@.len()
                            &&& forall|i: int|
                                0 <= i < diff_ids@.len() ==> #[trigger] diff_ids@[i]@
                                    == metadata.image.layers@[i].diff_id@
                            &&& #[trigger] call_ensures(
                                *derive,
                                (manifest_digest, diff_ids, platform),
                                derived,
                            )
                            &&& forall|by_derivation: Result<(), ImageError>| #[trigger]
                                call_ensures(
                                    check_derivation,
                                    (metadata, &derived),
                                    by_derivation,
                                ) ==> crate::laws::images::same_outcome(checked, by_derivation)
                        },
                }
            },
{
    let verdict = ImageError::verdict(checked);
    let (reading, derived) = choose|reading: ConfigReading, derived: Digest|
        crate::image::prepared::is_findings(
            metadata@,
            reference@,
            platform,
            materializer_abi,
            *parse_config,
            *derive,
            reading,
            derived,
        ) && verdict == #[trigger] metadata@.verdict(
            reference@,
            platform@,
            materializer_abi,
            crate::image::metadata::ImageConfig::reading(reading),
            derived@,
        );
    if let Err(error) = identity {
        assert(verdict == Err::<(), _>(error@));
    } else {
        let read = crate::image::metadata::ImageConfig::reading(reading);
        let image = metadata@.image.verdict(read);
        assert(crate::image::metadata::validates_as(*parse_config, metadata.image@, image));
        if image is Ok {
            if let Err(error) = rooted {
                assert(verdict == Err::<(), _>(error@));
            } else {
                assert(crate::image::prepared::derives(
                    *derive,
                    metadata@.image,
                    platform,
                    derived,
                ));
                let (manifest_digest, diff_ids) = choose|
                    manifest_digest: &Digest,
                    diff_ids: &Vec<Digest>,
                |
                    {
                        &&& manifest_digest@ == metadata@.image.manifest_digest
                        &&& Digest::texts(diff_ids@) == metadata@.image.diff_ids()
                        &&& #[trigger] call_ensures(
                            *derive,
                            (manifest_digest, diff_ids, platform),
                            derived,
                        )
                    };
                let texts = Digest::texts(diff_ids@);
                assert(texts.len() == diff_ids@.len());
                assert(metadata@.image.diff_ids().len() == metadata.image.layers@.len());
                assert forall|i: int| 0 <= i < diff_ids@.len() implies #[trigger] diff_ids@[i]@
                    == metadata.image.layers@[i].diff_id@ by {
                    assert(texts[i] == metadata@.image.diff_ids()[i]);
                }
                assert forall|by_derivation: Result<(), ImageError>| #[trigger]
                    call_ensures(
                        check_derivation,
                        (metadata, &derived),
                        by_derivation,
                    ) implies crate::laws::images::same_outcome(checked, by_derivation) by {
                    assert(ImageError::verdict(by_derivation) == verdict);
                }
                assert(call_ensures(*derive, (manifest_digest, diff_ids, platform), derived));
            }
        }
    }
}

/// A bundle of ordinary size can always be validated, with a parser and a derivation that take
/// everything.
pub proof fn any_bundle_can_be_validated<
    C: Fn(&[u8]) -> ConfigReading,
    D: Fn(&Digest, &Vec<Digest>, &Platform) -> Digest,
>(
    metadata: &PreparedRootMetadata,
    reference: &Reference,
    platform: &Platform,
    materializer_abi: u32,
    parse_config: &C,
    derive: &D,
    inputs: ExportInputs,
    root: Option<FlatRootfsRef>,
)
    requires
        vstd::utf8::encode_utf8(metadata.image.raw_config_json@).len() < 0x2000_0000_0000_0000,
        vstd::utf8::encode_utf8(inputs.image.raw_config_json@).len() < 0x2000_0000_0000_0000,
        forall|bytes: &[u8]| call_requires(*parse_config, (bytes,)),
        forall|manifest_digest: &Digest, diff_ids: &Vec<Digest>, target: &Platform|
            call_requires(*derive, (manifest_digest, diff_ids, target)),
    ensures
        call_requires(
            validate_metadata::<C, D>,
            (metadata, reference, platform, materializer_abi, parse_config, derive),
        ),
        call_requires(
            assemble_export::<C, D>,
            (inputs, reference, platform, root, materializer_abi, parse_config, derive),
        ),
{
}

/// What passes validation is bound in every field: version, source and platform are those asked
/// for, the reference is pinned by the image's manifest, the root is of that manifest, and
/// everything that goes by a digest goes by one.
pub proof fn accepted_bundles_are_bound_in_every_field<
    C: Fn(&[u8]) -> ConfigReading,
    D: Fn(&Digest, &Vec<Digest>, &Platform) -> Digest,
>(
    metadata: &PreparedRootMetadata,
    reference: &Reference,
    platform: &Platform,
    materializer_abi: u32,
    parse_config: &C,
    derive: &D,
)
    requires
        call_ensures(
            validate_metadata::<C, D>,
            (metadata, reference, platform, materializer_abi, parse_config, derive),
            Ok(()),
        ),
    ensures
        is_asked_for(*metadata, *reference, *platform),
        is_pinned_by(*reference, metadata.image.manifest_digest@),
        metadata.root.schema == 1,
        metadata.root.manifest_digest@ == metadata.image.manifest_digest@,
        metadata.root.materializer_abi == materializer_abi,
        crate::laws::images::is_digest(metadata.image.manifest_digest@),
        crate::laws::images::is_digest(metadata.root.derivation_digest@),
        crate::laws::images::is_digest(metadata.root.artifact_digest@),
        forall|i: int|
            0 <= i < metadata.image.layers@.len() ==> crate::laws::images::is_digest(
                #[trigger] metadata.image.layers@[i].diff_id@,
            ),
        crate::laws::images::is_digest_of(
            metadata.image.config_digest@,
            crate::image::hashing::sha256(
                vstd::utf8::encode_utf8(metadata.image.raw_config_json@),
            ),
        ),
{
    crate::laws::images::digests_have_their_grammar(metadata.image.manifest_digest@);
    crate::laws::images::digests_have_their_grammar(metadata.root.derivation_digest@);
    crate::laws::images::digests_have_their_grammar(metadata.root.artifact_digest@);
    crate::laws::images::digests_spell_hashes(
        crate::image::hashing::sha256(vstd::utf8::encode_utf8(metadata.image.raw_config_json@)),
    );
    assert(metadata@.platform == platform@ <==> is_for_platform(*metadata, *platform));
    let names = metadata@.image.diff_ids();
    assert(names.len() == metadata.image.layers@.len());
    assert forall|i: int| 0 <= i < metadata.image.layers@.len() implies crate::laws::images::is_digest(
        #[trigger] metadata.image.layers@[i].diff_id@,
    ) by {
        assert(Digest::accepts(names[i]));
        crate::laws::images::digests_have_their_grammar(names[i]);
    }
}

/// An export finds what it needs exactly where an image is cached, the image's manifest is named
/// by a digest, the reference is pinned by that digest, and every layer of the image is named by
/// a digest. It then has that image, that digest and the layers' digests in order. What is
/// missing first is named.
pub proof fn exports_need_a_pinned_image(
    reference: Reference,
    image: Option<CachedImageMetadata>,
    inputs: Result<ExportInputs, ImageError>,
)
    requires
        call_ensures(export_inputs, (&reference, image), inputs),
    ensures
        inputs is Ok <==> (image matches Some(cached) && {
            &&& crate::laws::images::is_digest(cached.manifest_digest@)
            &&& is_pinned_by(reference, cached.manifest_digest@)
            &&& forall|i: int|
                0 <= i < cached.layers@.len() ==> crate::laws::images::is_digest(#[trigger] cached.layers@[i].diff_id@)
        }),
        inputs matches Ok(found) ==> {
            &&& image == Some(found.image)
            &&& found.manifest_digest@ == found.image.manifest_digest@
            &&& found.diff_ids@.len() == found.image.layers@.len()
            &&& forall|i: int|
                0 <= i < found.diff_ids@.len() ==> #[trigger] found.diff_ids@[i]@
                    == found.image.layers@[i].diff_id@
        },
        image is None ==> crate::laws::images::is_refused(
            inputs,
            "image metadata is not cached for "@ + reference.text@,
        ),
        image matches Some(cached) ==> !crate::laws::images::is_digest(cached.manifest_digest@) ==> crate::laws::images::is_refused(
            inputs,
            "invalid "@ + "image manifest digest"@ + ": "@ + cached.manifest_digest@,
        ),
        image matches Some(cached) ==> crate::laws::images::is_digest(cached.manifest_digest@)
            ==> match reference.digest {
            Some(pin) => pin@ != cached.manifest_digest@ ==> crate::laws::images::is_refused(
                inputs,
                "image reference digest "@ + pin@ + " does not match manifest "@
                    + cached.manifest_digest@,
            ),
            None => crate::laws::images::is_refused(
                inputs,
                "prepared-root source must be pinned by digest: "@ + reference.text@,
            ),
        },
        match (image, inputs) {
            (Some(cached), Err(error)) => crate::laws::images::is_digest(cached.manifest_digest@)
                && is_pinned_by(reference, cached.manifest_digest@) ==> forall|
                named: Result<Vec<Digest>, ImageError>,
            | #[trigger]
                call_ensures(layer_diff_ids, (&cached,), named) ==> (named matches Err(reported)
                    && crate::laws::images::same_error(error, reported)),
            _ => true,
        },
{
    if let Some(cached) = image {
        crate::laws::images::digests_have_their_grammar(cached.manifest_digest@);
        let names = cached@.diff_ids();
        assert(names.len() == cached.layers@.len());
        assert forall|i: int| 0 <= i < names.len() implies #[trigger] names[i]
            == cached.layers@[i].diff_id@ && (crate::laws::images::is_digest(names[i]) <==> Digest::accepts(
            names[i],
        )) by {
            crate::laws::images::digests_have_their_grammar(names[i]);
        }
        if cached@.diff_ids_accepted() {
            assert forall|i: int| 0 <= i < cached.layers@.len() implies crate::laws::images::is_digest(
                #[trigger] cached.layers@[i].diff_id@,
            ) by {
                assert(Digest::accepts(names[i]));
            }
        }
        if forall|i: int|
            0 <= i < cached.layers@.len() ==> crate::laws::images::is_digest(#[trigger] cached.layers@[i].diff_id@) {
            assert forall|i: int| 0 <= i < names.len() implies Digest::accepts(
                #[trigger] names[i],
            ) by {
                assert(crate::laws::images::is_digest(cached.layers@[i].diff_id@));
            }
        }
        if let Ok(found) = inputs {
            let texts = Digest::texts(found.diff_ids@);
            assert(texts.len() == found.diff_ids@.len());
            assert forall|i: int| 0 <= i < found.diff_ids@.len() implies #[trigger]
                found.diff_ids@[i]@ == found.image.layers@[i].diff_id@ by {
                assert(texts[i] == names[i]);
            }
        }
        if let Err(error) = inputs {
            assert forall|named: Result<Vec<Digest>, ImageError>| #[trigger]
                call_ensures(layer_diff_ids, (&cached,), named) && crate::laws::images::is_digest(
                    cached.manifest_digest@,
                ) && is_pinned_by(reference, cached.manifest_digest@) implies (
                named matches Err(reported) && crate::laws::images::same_error(error, reported)) by {
                if let Err(reported) = named {
                    crate::laws::images::errors_are_told_apart_by_their_views(error, reported);
                }
            }
        }
    }
}

/// An export gives the bundle of the root that was found, for the reference, the platform and the
/// image that it was asked for, exactly where validation accepts that bundle; it is refused as
/// validation refuses it. Without a root there is nothing to export.
pub proof fn exports_are_what_validation_accepts<
    C: Fn(&[u8]) -> ConfigReading,
    D: Fn(&Digest, &Vec<Digest>, &Platform) -> Digest,
>(
    inputs: ExportInputs,
    reference: &Reference,
    platform: &Platform,
    root: Option<FlatRootfsRef>,
    materializer_abi: u32,
    parse_config: &C,
    derive: &D,
    name: String,
    exported: Result<PreparedRootMetadata, ImageError>,
)
    requires
        call_ensures(platform_name, (platform,), name),
        call_ensures(
            assemble_export::<C, D>,
            (inputs, reference, platform, root, materializer_abi, parse_config, derive),
            exported,
        ),
    ensures
        root is None ==> crate::laws::images::is_refused(
            exported,
            "flat rootfs is not materialized for "@ + inputs.image.manifest_digest@ + " on "@
                + name@,
        ),
        root matches Some(found) ==> match exported {
            Ok(metadata) => {
                &&& metadata@ == bundle_view(*reference, *platform, inputs.image, found)
                &&& crate::image::prepared::bundle_validates_as(
                    metadata@,
                    reference@,
                    platform,
                    materializer_abi,
                    *parse_config,
                    *derive,
                    Ok(()),
                )
            },
            Err(error) => crate::image::prepared::bundle_validates_as(
                bundle_view(*reference, *platform, inputs.image, found),
                reference@,
                platform,
                materializer_abi,
                *parse_config,
                *derive,
                Err(error@),
            ),
        },
{
    if let Some(found) = root {
        let view = bundle_view(*reference, *platform, inputs.image, found);
        let (reading, derived) = choose|reading: ConfigReading, derived: Digest|
            {
                &&& #[trigger] crate::image::prepared::is_findings(
                    crate::image::export::exported(
                        reference@,
                        platform@,
                        inputs.image@,
                        found@,
                    ),
                    reference@,
                    platform,
                    materializer_abi,
                    *parse_config,
                    *derive,
                    reading,
                    derived,
                )
                &&& PreparedRootMetadata::outcome(exported)
                    == crate::image::export::export_result(
                    reference@,
                    platform@,
                    inputs.image@,
                    Some(found@),
                    materializer_abi,
                    crate::image::metadata::ImageConfig::reading(reading),
                    derived@,
                )
            };
        assert(view == crate::image::export::exported(
            reference@,
            platform@,
            inputs.image@,
            found@,
        ));
        let verdict = view.verdict(
            reference@,
            platform@,
            materializer_abi,
            crate::image::metadata::ImageConfig::reading(reading),
            derived@,
        );
        assert(exported matches Ok(_) ==> verdict == Ok::<(), crate::image::error::ImageErrorView>(
            (),
        ));
    }
}

/// What the metadata of a bundle says, field by field.
pub open spec fn bundle_view(
    reference: Reference,
    platform: Platform,
    image: CachedImageMetadata,
    root: FlatRootfsRef,
) -> crate::image::prepared::MetadataView {
    crate::image::prepared::MetadataView {
        schema: 1,
        source_reference: reference.text@,
        platform: crate::image::prepared::PlatformView {
            os: platform.os@,
            arch: platform.arch@,
            variant: match platform.variant {
                Some(variant) => Some(variant@),
                None => None,
            },
        },
        image: image@,
        root: crate::image::prepared::RootView {
            schema: root.schema,
            manifest_digest: root.manifest_digest@,
            derivation_digest: root.derivation_digest@,
            artifact_digest: root.artifact_digest@,
            materializer_abi: root.materializer_abi,
            uuid: root.uuid@,
            virtual_size_bytes: root.virtual_size_bytes,
            inode_count: root.inode_count,
            content_bytes: root.content_bytes,
        },
    }
}

/// What the metadata of a bundle says is what its fields hold, down to each layer.
pub proof fn bundles_are_seen_whole(metadata: PreparedRootMetadata, i: int)
    requires
        0 <= i < metadata.image.layers@.len(),
    ensures
        metadata@.schema == metadata.schema,
        metadata@.source_reference == metadata.source_reference@,
        metadata@.platform.os == metadata.platform.os@,
        metadata@.platform.arch == metadata.platform.architecture@,
        metadata@.platform.variant == match metadata.platform.variant {
            Some(variant) => Some(variant@),
            None => None,
        },
        metadata@.image.manifest_digest == metadata.image.manifest_digest@,
        metadata@.image.config_digest == metadata.image.config_digest@,
        metadata@.image.raw_manifest_json == metadata.image.raw_manifest_json@,
        metadata@.image.raw_config_json == metadata.image.raw_config_json@,
        metadata@.image.config == metadata.image.config.document@,
        metadata@.image.layers.len() == metadata.image.layers@.len(),
        metadata@.image.layers[i].digest == metadata.image.layers@[i].digest@,
        metadata@.image.layers[i].media_type == match metadata.image.layers@[i].media_type {
            Some(media_type) => Some(media_type@),
            None => None,
        },
        metadata@.image.layers[i].size_bytes == metadata.image.layers@[i].size_bytes,
        metadata@.image.layers[i].diff_id == metadata.image.layers@[i].diff_id@,
        metadata@.root.schema == metadata.root.schema,
        metadata@.root.manifest_digest == metadata.root.manifest_digest@,
        metadata@.root.derivation_digest == metadata.root.derivation_digest@,
        metadata@.root.artifact_digest == metadata.root.artifact_digest@,
        metadata@.root.materializer_abi == metadata.root.materializer_abi,
        metadata@.root.uuid == metadata.root.uuid@,
        metadata@.root.virtual_size_bytes == metadata.root.virtual_size_bytes,
        metadata@.root.inode_count == metadata.root.inode_count,
        metadata@.root.content_bytes == metadata.root.content_bytes,
{
}

/// What an export accepts must have had its inputs accepted: whatever bundle it comes to, the
/// same reference and image pass as an export's inputs.
pub proof fn exported_images_have_accepted_inputs(
    reference: Reference,
    image: CachedImageMetadata,
    platform: crate::image::prepared::PlatformView,
    root: Option<crate::image::prepared::RootView>,
    materializer_abi: u32,
    reading: crate::image::metadata::ConfigReadingView,
    derived: Seq<char>,
    inputs: Result<ExportInputs, ImageError>,
)
    requires
        crate::image::export::export_result(
            reference@,
            platform,
            image@,
            root,
            materializer_abi,
            reading,
            derived,
        ) is Ok,
        call_ensures(export_inputs, (&reference, Some(image)), inputs),
    ensures
        inputs is Ok,
{
}

/// What has no condition can be asked for at any time.
pub proof fn anything_can_be_asked_of_a_bundle(
    metadata: &PreparedRootMetadata,
    reference: &Reference,
    platform: &Platform,
    materializer_abi: u32,
    digest: &Digest,
    image: Option<CachedImageMetadata>,
)
    ensures
        call_requires(platform_name, (platform,)),
        call_requires(prepared_platform_name, (&metadata.platform,)),
        call_requires(validate_pinned_reference, (reference, digest)),
        call_requires(check_identity, (metadata, reference, platform)),
        call_requires(check_root, (metadata, materializer_abi)),
        call_requires(check_derivation, (metadata, digest)),
        call_requires(export_inputs, (reference, image)),
{
}

/// The versions and files of a bundle.
pub proof fn bundles_have_their_files()
    ensures
        crate::image::prepared::PREPARED_ROOT_SCHEMA == 1,
        crate::image::prepared::FLAT_ROOT_SCHEMA == 1,
        crate::image::prepared::PREPARED_ROOT_METADATA_FILENAME@ == "metadata.json"@,
        crate::image::prepared::PREPARED_ROOT_PAYLOAD_FILENAME@ == "rootfs.raw.zst"@,
{
}

} // verus!
