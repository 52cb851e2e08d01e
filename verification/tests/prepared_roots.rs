//! Prepared roots: validation, export and import.

use sha2::Digest as _;

use sandbox_control::fault::{IoErrorKind, IoFailure};
use sandbox_control::image::digest::{parse_digest, Digest};
use sandbox_control::image::error::{cache_error, ImageError};
use sandbox_control::image::export::{assemble_export, export_inputs};
use sandbox_control::image::files::{part_path, ready_to_replace};
use sandbox_control::image::hashing::{content_digest, render_digest};
use sandbox_control::image::import::{
    import_inputs, import_step, ImportEvent, ImportStep,
};
use sandbox_control::image::manifest::{LayerDescriptor, ManifestSummary};
use sandbox_control::image::metadata::{
    check_comparison, check_config, check_digest, check_documents, check_manifest, layer_diff_ids,
    validate_image_metadata, validate_json_digest, CachedImageMetadata, CachedLayerMetadata,
    ConfigReading, ImageConfig,
};
use sandbox_control::image::prepared::{
    check_derivation, check_identity, check_root, platform_name, prepared_platform_name,
    validate_metadata, validate_pinned_reference, FlatRootfsRef, Platform, PreparedRootMetadata,
    PreparedRootPlatform, Reference, PREPARED_ROOT_METADATA_FILENAME,
    PREPARED_ROOT_PAYLOAD_FILENAME,
};
use sandbox_control::image::sparse::{SparseCopy, SparseWrite};

const ABI: u32 = 3;
const LAYER: &str = "sha256:1111111111111111111111111111111111111111111111111111111111111111";
const DIFF_ID: &str = "sha256:2222222222222222222222222222222222222222222222222222222222222222";
const GZIP: &str = "application/vnd.oci.image.layer.v1.tar+gzip";

fn sha256(bytes: &[u8]) -> String {
    format!("sha256:{}", hex::encode(sha2::Sha256::digest(bytes)))
}

fn platform() -> Platform {
    Platform { os: "linux".to_string(), arch: "arm64".to_string(), variant: Some("v8".to_string()) }
}

fn raw_config(diff_ids: &str) -> String {
    format!(
        r#"{{"architecture":"arm64","os":"linux","rootfs":{{"type":"layers","diff_ids":[{diff_ids}]}},"config":{{}}}}"#
    )
}

fn raw_manifest(config_digest: &str, config_size: usize, layers: &str) -> String {
    format!(
        r#"{{
          "schemaVersion": 2,
          "mediaType": "application/vnd.oci.image.manifest.v1+json",
          "config": {{
            "mediaType": "application/vnd.oci.image.config.v1+json",
            "digest": "{config_digest}",
            "size": {config_size}
          }},
          "layers": [{layers}]
        }}"#
    )
}

fn layered_image() -> CachedImageMetadata {
    let raw_config_json = raw_config(&format!("\"{DIFF_ID}\""));
    let config_digest = sha256(raw_config_json.as_bytes());
    let raw_manifest_json = raw_manifest(
        &config_digest,
        raw_config_json.len(),
        &format!(r#"{{"mediaType": "{GZIP}", "digest": "{LAYER}", "size": 42}}"#),
    );
    CachedImageMetadata {
        manifest_digest: sha256(raw_manifest_json.as_bytes()),
        config_digest,
        raw_manifest_json,
        raw_config_json,
        config: ImageConfig { document: r#"{"cmd":["sh"],"env":[]}"#.to_string() },
        layers: vec![CachedLayerMetadata {
            digest: LAYER.to_string(),
            media_type: Some(GZIP.to_string()),
            size_bytes: Some(42),
            diff_id: DIFF_ID.to_string(),
        }],
    }
}

/// Reads the layers out of a configuration document; the runtime configuration is a fixed one.
fn parse_config(bytes: &[u8]) -> ConfigReading {
    let value: serde_json::Value = serde_json::from_slice(bytes)
        .map_err(|error| ImageError::ConfigParse(error.to_string()))?;
    let diff_ids = value.get("rootfs").unwrap().get("diff_ids").unwrap().as_array().unwrap();
    Ok((
        ImageConfig { document: r#"{ "env": [], "cmd": ["sh"] }"#.to_string() },
        diff_ids.iter().map(|id| id.as_str().unwrap().to_string()).collect(),
    ))
}

fn derive(manifest_digest: &Digest, diff_ids: &Vec<Digest>, platform: &Platform) -> Digest {
    let mut inputs = manifest_digest.text();
    for diff_id in diff_ids {
        inputs.push_str(&diff_id.text());
    }
    inputs.push_str(&platform_name(platform));
    Digest::parse(&sha256(inputs.as_bytes())).unwrap()
}

fn pinned(image: &CachedImageMetadata) -> Reference {
    Reference {
        text: format!("registry.example/runner@{}", image.manifest_digest),
        digest: Some(image.manifest_digest.clone()),
    }
}

fn flat_root(image: &CachedImageMetadata, artifact: &[u8]) -> FlatRootfsRef {
    let diff_ids = layer_diff_ids(image).unwrap();
    let manifest_digest = Digest::parse(&image.manifest_digest).unwrap();
    FlatRootfsRef {
        schema: 1,
        manifest_digest: image.manifest_digest.clone(),
        derivation_digest: derive(&manifest_digest, &diff_ids, &platform()).text(),
        artifact_digest: sha256(artifact),
        materializer_abi: ABI,
        uuid: "00".to_string(),
        virtual_size_bytes: artifact.len() as u64,
        inode_count: 11,
        content_bytes: 0,
    }
}

fn bundle() -> (PreparedRootMetadata, Reference) {
    let image = layered_image();
    let reference = pinned(&image);
    let inputs = export_inputs(&reference, Some(image.clone())).unwrap();
    let root = flat_root(&image, b"root");
    let metadata =
        assemble_export(inputs, &reference, &platform(), Some(root), ABI, &parse_config, &derive)
            .unwrap();
    (metadata, reference)
}

fn validate(metadata: &PreparedRootMetadata, reference: &Reference) -> Result<(), ImageError> {
    validate_metadata(metadata, reference, &platform(), ABI, &parse_config, &derive)
}

fn refusal(result: Result<(), ImageError>) -> String {
    match result {
        Err(ImageError::ConfigParse(message)) => message,
        other => panic!("a refusal was expected: {other:?}"),
    }
}

#[test]
fn digests_are_read_and_written() {
    let text = sha256(b"abc");
    assert_eq!(
        text,
        "sha256:ba7816bf8f01cfea414140de5dae2223b00361a396177a9cb410ff61f20015ad"
    );
    assert_eq!(content_digest(b"abc"), text);
    assert_eq!(render_digest(&[0, 15, 16, 255]), "sha256:000f10ff");
    let digest = parse_digest(&text, "test digest").unwrap();
    assert_eq!(digest.text(), text);
    assert_eq!(Digest::parse("a:b:c").unwrap().text(), "a:b:c");
    for invalid in vec!["", ":", "sha256", "sha256:", ":abc"] {
        assert!(Digest::parse(invalid).is_none());
        match parse_digest(invalid, "test digest") {
            Err(ImageError::ConfigParse(message)) => {
                assert_eq!(message, format!("invalid test digest: {invalid}"))
            }
            _ => panic!("no digest"),
        }
    }
}

#[test]
fn documents_are_held_against_their_digest() {
    let digest = sha256(b"{}");
    assert!(validate_json_digest("document", b"{}", &digest).is_ok());
    assert_eq!(
        refusal(validate_json_digest("document", b"{ }", &digest)),
        format!("document digest mismatch: expected {digest}, got {}", sha256(b"{ }"))
    );
    assert_eq!(
        refusal(check_digest("document", "a", "b")),
        "document digest mismatch: expected b, got a"
    );
}

#[test]
fn platforms_have_names() {
    assert_eq!(platform_name(&platform()), "linux/arm64/v8");
    let plain = PreparedRootPlatform {
        os: "linux".to_string(),
        architecture: "amd64".to_string(),
        variant: None,
    };
    assert_eq!(prepared_platform_name(&plain), "linux/amd64");
}

#[test]
fn references_must_be_pinned() {
    let digest = Digest::parse(LAYER).unwrap();
    let mut reference = Reference { text: "runner:1".to_string(), digest: None };
    assert_eq!(
        refusal(validate_pinned_reference(&reference, &digest)),
        "prepared-root source must be pinned by digest: runner:1"
    );
    reference.digest = Some(DIFF_ID.to_string());
    assert_eq!(
        refusal(validate_pinned_reference(&reference, &digest)),
        format!("image reference digest {DIFF_ID} does not match manifest {LAYER}")
    );
    reference.digest = Some(LAYER.to_string());
    assert!(validate_pinned_reference(&reference, &digest).is_ok());
}

#[test]
fn images_agree_with_their_documents() {
    let image = layered_image();
    assert!(check_documents(&image).is_ok());
    assert!(validate_image_metadata(&image, &parse_config).is_ok());

    let mut changed = image.clone();
    changed.raw_config_json.push(' ');
    assert!(refusal(check_documents(&changed)).starts_with("image configuration digest mismatch"));

    let mut changed = image.clone();
    changed.raw_manifest_json = "[]".to_string();
    match check_documents(&changed) {
        Err(ImageError::ManifestParse(message)) => {
            assert!(message.starts_with("prepared image manifest: "));
            assert!(message.len() > "prepared image manifest: ".len());
        }
        _ => panic!("no manifest"),
    }

    let mut changed = image.clone();
    changed.layers[0].size_bytes = Some(43);
    assert_eq!(
        refusal(validate_image_metadata(&changed, &parse_config)),
        "cached layer metadata does not match the resolved OCI manifest"
    );
    let mut changed = image.clone();
    changed.layers[0].media_type = None;
    assert!(check_documents(&changed).is_err());
    let mut changed = image.clone();
    changed.layers[0].digest = DIFF_ID.to_string();
    assert!(check_documents(&changed).is_err());

    let mut changed = image.clone();
    changed.config.document = r#"{"cmd":["bash"],"env":[]}"#.to_string();
    assert_eq!(
        refusal(validate_image_metadata(&changed, &parse_config)),
        "cached image configuration does not match its raw OCI document"
    );
    let mut changed = image.clone();
    changed.config.document = "{".to_string();
    assert!(refusal(validate_image_metadata(&changed, &parse_config))
        .starts_with("failed to compare cached image configuration: EOF"));

    let mut changed = image.clone();
    changed.layers[0].diff_id = LAYER.to_string();
    assert_eq!(
        refusal(validate_image_metadata(&changed, &parse_config)),
        "cached layer diff IDs do not match the raw OCI configuration"
    );
}

#[test]
fn layers_are_bound_in_order() {
    let raw_config_json = raw_config(&format!("\"{DIFF_ID}\",\"{LAYER}\""));
    let config_digest = sha256(raw_config_json.as_bytes());
    let raw_manifest_json = raw_manifest(
        &config_digest,
        raw_config_json.len(),
        &format!(
            r#"{{"mediaType": "{GZIP}", "digest": "{LAYER}", "size": 42}},
               {{"mediaType": "{GZIP}", "digest": "{LAYER}", "size": 42}}"#
        ),
    );
    let mut image = layered_image();
    image.raw_config_json = raw_config_json;
    image.config_digest = config_digest;
    image.raw_manifest_json = raw_manifest_json;
    let mut second = image.layers[0].clone();
    second.diff_id = LAYER.to_string();
    image.layers.push(second);
    assert!(validate_image_metadata(&image, &parse_config).is_ok());
    image.layers.swap(0, 1);
    assert_eq!(
        refusal(validate_image_metadata(&image, &parse_config)),
        "cached layer diff IDs do not match the raw OCI configuration"
    );
}

#[test]
fn images_are_held_against_a_given_manifest() {
    let image = layered_image();
    let manifest = ManifestSummary {
        config_digest: image.config_digest.clone(),
        config_size: image.raw_config_json.len() as u64,
        layers: vec![LayerDescriptor {
            digest: LAYER.to_string(),
            media_type: GZIP.to_string(),
            size: 42,
        }],
    };
    assert!(check_manifest(&image, &manifest).is_ok());
    let mut other = manifest.clone();
    other.config_digest = LAYER.to_string();
    assert_eq!(
        refusal(check_manifest(&image, &other)),
        "cached config digest does not match the resolved OCI manifest"
    );
    let mut other = manifest.clone();
    other.config_size += 1;
    assert_eq!(
        refusal(check_manifest(&image, &other)),
        "cached config size does not match the resolved OCI manifest"
    );
    let mut other = manifest.clone();
    other.layers.clear();
    assert_eq!(
        refusal(check_manifest(&image, &other)),
        "cached layer count does not match the resolved OCI manifest"
    );
}

#[test]
fn configurations_are_compared_as_values() {
    let image = layered_image();
    let same = ImageConfig { document: r#"{"env":[ ],"cmd":["sh"]}"#.to_string() };
    assert!(check_config(&image, Ok((same, vec![DIFF_ID.to_string()]))).is_ok());
    let broken = ImageConfig { document: "nothing".to_string() };
    assert!(refusal(check_config(&image, Ok((broken, vec![]))))
        .starts_with("failed to compare parsed image configuration: "));
    let unread = Err(ImageError::ConfigParse("unreadable".to_string()));
    assert_eq!(refusal(check_config(&image, unread)), "unreadable");

    let one = serde_json::Value::from(1);
    let two = serde_json::Value::from(2);
    assert!(check_comparison(Ok(one.clone()), Ok(one.clone())).is_ok());
    assert_eq!(
        refusal(check_comparison(Ok(one.clone()), Ok(two))),
        "cached image configuration does not match its raw OCI document"
    );
    assert_eq!(
        refusal(check_comparison(Err("why".to_string()), Err("why not".to_string()))),
        "failed to compare parsed image configuration: why"
    );
    assert_eq!(
        refusal(check_comparison(Ok(one), Err("why".to_string()))),
        "failed to compare cached image configuration: why"
    );
    let mut image = layered_image();
    image.config.document = "nothing".to_string();
    let read = ImageConfig { document: "{}".to_string() };
    assert!(refusal(check_config(&image, Ok((read, vec![]))))
        .starts_with("failed to compare cached image configuration: "));
}

#[test]
fn the_first_bad_layer_is_reported() {
    let mut image = layered_image();
    assert_eq!(layer_diff_ids(&image).unwrap()[0].text(), DIFF_ID);
    let mut second = image.layers[0].clone();
    second.diff_id = "bad".to_string();
    let mut third = image.layers[0].clone();
    third.diff_id = "worse".to_string();
    image.layers.push(second);
    image.layers.push(third);
    match layer_diff_ids(&image) {
        Err(ImageError::ConfigParse(message)) => assert_eq!(message, "invalid layer diff ID: bad"),
        _ => panic!("a bad layer"),
    }
}

#[test]
fn exported_bundles_are_accepted() {
    let (metadata, reference) = bundle();
    assert_eq!(metadata.schema, 1);
    assert_eq!(metadata.source_reference, reference.text);
    assert_eq!(metadata.platform.architecture, "arm64");
    assert!(validate(&metadata, &reference).is_ok());
    assert_eq!(
        check_identity(&metadata, &reference, &platform()).unwrap().text(),
        metadata.image.manifest_digest
    );
    assert_eq!(check_root(&metadata, ABI).unwrap()[0].text(), DIFF_ID);
    assert!(check_derivation(
        &metadata,
        &Digest::parse(&metadata.root.derivation_digest).unwrap()
    )
    .is_ok());
}

#[test]
fn statistics_play_no_part_in_validation() {
    let (mut metadata, reference) = bundle();
    metadata.root.uuid = "another".to_string();
    metadata.root.virtual_size_bytes += 1;
    metadata.root.inode_count = 0;
    metadata.root.content_bytes = u64::MAX;
    assert!(validate(&metadata, &reference).is_ok());
    metadata.root.materializer_abi += 1;
    let message = refusal(validate(&metadata, &reference));
    metadata.root.inode_count = 11;
    assert_eq!(refusal(validate(&metadata, &reference)), message);
}

#[test]
fn bundles_that_are_not_asked_for_are_refused() {
    let (metadata, reference) = bundle();

    let mut changed = metadata.clone();
    changed.schema = 20;
    assert_eq!(refusal(validate(&changed, &reference)), "unsupported prepared-root schema 20");

    let mut changed = metadata.clone();
    changed.source_reference = "other".to_string();
    assert_eq!(
        refusal(validate(&changed, &reference)),
        format!("prepared root source mismatch: expected {}, got other", reference.text)
    );

    let mut changed = metadata.clone();
    changed.platform.variant = None;
    assert_eq!(
        refusal(validate(&changed, &reference)),
        "prepared root platform mismatch: expected linux/arm64/v8, got linux/arm64"
    );

    let mut changed = metadata.clone();
    changed.image.manifest_digest = "manifest".to_string();
    assert_eq!(
        refusal(validate(&changed, &reference)),
        "invalid image manifest digest: manifest"
    );

    let mut changed = metadata.clone();
    changed.image.layers.clear();
    assert_eq!(
        refusal(validate(&changed, &reference)),
        "cached layer count does not match the resolved OCI manifest"
    );

    let mut changed = metadata.clone();
    changed.root.schema = 2;
    assert_eq!(
        refusal(validate(&changed, &reference)),
        "prepared root does not match its image manifest"
    );
    let mut changed = metadata.clone();
    changed.root.manifest_digest = LAYER.to_string();
    assert_eq!(
        refusal(validate(&changed, &reference)),
        "prepared root does not match its image manifest"
    );

    let mut changed = metadata.clone();
    changed.root.materializer_abi = 12;
    assert_eq!(
        refusal(validate(&changed, &reference)),
        "prepared root materializer ABI mismatch: expected 3, got 12"
    );

    let mut changed = metadata.clone();
    changed.root.derivation_digest = LAYER.to_string();
    assert_eq!(
        refusal(validate(&changed, &reference)),
        "prepared root derivation digest does not match its inputs"
    );

    let mut changed = metadata.clone();
    changed.root.artifact_digest = "artifact".to_string();
    assert_eq!(refusal(validate(&changed, &reference)), "invalid flat artifact digest: artifact");
}

#[test]
fn exports_need_an_image_and_a_root() {
    let image = layered_image();
    let reference = pinned(&image);
    match export_inputs(&reference, None) {
        Err(ImageError::ConfigParse(message)) => {
            assert_eq!(message, format!("image metadata is not cached for {}", reference.text))
        }
        _ => panic!("nothing is cached"),
    }
    let inputs = export_inputs(&reference, Some(image.clone())).unwrap();
    assert_eq!(inputs.manifest_digest.text(), image.manifest_digest);
    assert_eq!(inputs.diff_ids.len(), 1);
    let missing =
        assemble_export(inputs, &reference, &platform(), None, ABI, &parse_config, &derive);
    match missing {
        Err(ImageError::ConfigParse(message)) => assert_eq!(
            message,
            format!(
                "flat rootfs is not materialized for {} on linux/arm64/v8",
                image.manifest_digest
            )
        ),
        _ => panic!("nothing is materialized"),
    }
}

/// Copies chunks sparsely into a buffer, as a file would take them.
fn copy(chunks: &[&[u8]], expected_size: u64) -> Result<(Vec<u8>, String, u64), ImageError> {
    let mut copy = SparseCopy::new(expected_size);
    let mut file: Vec<u8> = Vec::new();
    let mut position = 0;
    for chunk in chunks {
        if copy.accept(chunk)? == SparseWrite::Store {
            file.resize(position, 0);
            file.extend_from_slice(chunk);
        }
        position += chunk.len();
        assert_eq!(copy.written(), position as u64);
    }
    file.resize(position, 0);
    let (digest, size) = copy.finish();
    Ok((file, digest, size))
}

#[test]
fn sparse_copies_are_exact_and_bounded() {
    let chunks: Vec<&[u8]> = vec![&[0, 0], &[1, 0, 2], &[0], &[3], &[0, 0, 0]];
    let whole = [0, 0, 1, 0, 2, 0, 3, 0, 0, 0];
    let (file, digest, size) = copy(&chunks, 10).unwrap();
    assert_eq!(file, whole);
    assert_eq!(digest, sha256(&whole));
    assert_eq!(size, 10);

    let mut counting = SparseCopy::new(3);
    assert_eq!(counting.accept(&[0, 0]).unwrap(), SparseWrite::Skip);
    assert_eq!(counting.accept(&[5]).unwrap(), SparseWrite::Store);
    match counting.accept(&[0]) {
        Err(ImageError::ConfigParse(message)) => {
            assert_eq!(message, "prepared root exceeds its declared size of 3 bytes")
        }
        _ => panic!("too long"),
    }
    match copy(&chunks, 9) {
        Err(ImageError::ConfigParse(message)) => {
            assert_eq!(message, "prepared root exceeds its declared size of 9 bytes")
        }
        _ => panic!("too long"),
    }
}

#[test]
fn a_bundle_is_imported_once_and_a_corrupt_one_never() {
    let image = layered_image();
    let reference = pinned(&image);
    let artifact: Vec<u8> = [[0u8; 64], [9u8; 64]].concat();
    let root = flat_root(&image, &artifact);
    let inputs = export_inputs(&reference, Some(image.clone())).unwrap();
    let metadata = assemble_export(
        inputs,
        &reference,
        &platform(),
        Some(root.clone()),
        ABI,
        &parse_config,
        &derive,
    )
    .unwrap();
    assert!(validate(&metadata, &reference).is_ok());
    assert_eq!(metadata.root, root);
    let inputs = import_inputs(&metadata).unwrap();
    assert_eq!(inputs.manifest_digest.text(), image.manifest_digest);
    assert_eq!(inputs.derivation_digest.text(), root.derivation_digest);

    let (file, digest, size) =
        copy(&[&artifact[..64], &artifact[64..]], root.virtual_size_bytes).unwrap();
    assert_eq!(file, artifact);
    let run = vec![
        (ImportStep::ReadCurrentRef, ImportEvent::CurrentRef(false)),
        (
            ImportStep::Decompress { present: false },
            ImportEvent::Decompressed { digest, size },
        ),
        (ImportStep::Inspect { present: false }, ImportEvent::Inspected(None)),
        (ImportStep::PublishBlob, ImportEvent::Completed),
        (ImportStep::WriteFlatRef, ImportEvent::Completed),
        (ImportStep::WriteImageMetadata, ImportEvent::Completed),
    ];
    let mut step = ImportStep::ReadCurrentRef;
    for (expected, event) in run {
        assert_eq!(step, expected);
        step = import_step(step, &root, event).unwrap();
    }
    assert_eq!(step, ImportStep::Done);
    assert_eq!(
        import_step(ImportStep::ReadCurrentRef, &root, ImportEvent::CurrentRef(true)).unwrap(),
        ImportStep::Decompress { present: true }
    );
    let sound = ImportEvent::Decompressed {
        digest: root.artifact_digest.clone(),
        size: root.virtual_size_bytes,
    };
    assert_eq!(
        import_step(ImportStep::Decompress { present: true }, &root, sound).unwrap(),
        ImportStep::Inspect { present: true }
    );
    assert_eq!(
        import_step(ImportStep::Inspect { present: true }, &root, ImportEvent::Inspected(None))
            .unwrap(),
        ImportStep::WriteImageMetadata
    );

    let corrupt = b"corrupt".to_vec();
    let (_, digest, size) = copy(&[&corrupt], root.virtual_size_bytes).unwrap();
    let event = ImportEvent::Decompressed { digest, size };
    match import_step(ImportStep::Decompress { present: true }, &root, event) {
        Err(ImageError::ConfigParse(message)) => {
            assert_eq!(message, "prepared root size mismatch: expected 128, got 7")
        }
        _ => panic!("a corrupt payload"),
    }
    let event = ImportEvent::Decompressed { digest: LAYER.to_string(), size: 128 };
    match import_step(ImportStep::Decompress { present: false }, &root, event) {
        Err(ImageError::ConfigParse(message)) => assert_eq!(
            message,
            format!(
                "prepared root digest mismatch: expected {}, got {LAYER}",
                root.artifact_digest
            )
        ),
        _ => panic!("a corrupt payload"),
    }
    let event = ImportEvent::Inspected(Some("bad magic".to_string()));
    match import_step(ImportStep::Inspect { present: true }, &root, event) {
        Err(ImageError::ConfigParse(message)) => {
            assert_eq!(message, "prepared root is not a valid ext4 artifact: bad magic")
        }
        _ => panic!("no filesystem"),
    }
    let mut nameless = root.clone();
    nameless.artifact_digest = "root.raw".to_string();
    let inspected = ImportStep::Inspect { present: false };
    match import_step(inspected, &nameless, ImportEvent::Inspected(None)) {
        Err(ImageError::ConfigParse(message)) => {
            assert_eq!(message, "invalid flat artifact digest: root.raw")
        }
        _ => panic!("no digest"),
    }
    let failure = ImportEvent::Failed(ImageError::Io(IoFailure::new(IoErrorKind::Other, "disk")));
    assert!(matches!(
        import_step(ImportStep::PublishBlob, &root, failure),
        Err(ImageError::Io(failure)) if failure.message == "disk"
    ));
}

#[test]
fn imports_read_their_digests() {
    let (mut metadata, _) = bundle();
    metadata.root.derivation_digest = "root".to_string();
    match import_inputs(&metadata) {
        Err(ImageError::ConfigParse(message)) => {
            assert_eq!(message, "invalid root derivation digest: root")
        }
        _ => panic!("no digest"),
    }
    metadata.image.manifest_digest = "image".to_string();
    match import_inputs(&metadata) {
        Err(ImageError::ConfigParse(message)) => {
            assert_eq!(message, "invalid image manifest digest: image")
        }
        _ => panic!("no digest"),
    }
}

#[test]
fn files_are_replaced_through_part_files() {
    assert_eq!(PREPARED_ROOT_METADATA_FILENAME, "metadata.json");
    assert_eq!(PREPARED_ROOT_PAYLOAD_FILENAME, "rootfs.raw.zst");
    assert_eq!(part_path(b"/b/metadata.json"), b"/b/metadata.json.part");

    assert!(ready_to_replace(b"/b", Ok(())).is_ok());
    let missing = IoFailure::new(IoErrorKind::NotFound, "missing");
    assert!(ready_to_replace(b"/b", Err(missing)).is_ok());
    let busy = IoFailure::new(IoErrorKind::Other, "busy");
    match ready_to_replace(b"/b", Err(busy.clone())) {
        Err(ImageError::Cache { path, source }) => {
            assert_eq!(path, b"/b");
            assert_eq!(source.message, "busy");
        }
        _ => panic!("the file is busy"),
    }
    match cache_error(b"/c", busy) {
        ImageError::Cache { path, source } => {
            assert_eq!(path, b"/c");
            assert_eq!(source.kind, IoErrorKind::Other);
        }
        _ => panic!("a cache error"),
    }
}
