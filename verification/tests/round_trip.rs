//! A prepared root on its way from one cache to another.

use std::collections::HashMap;
use std::io::Read;
use std::sync::{Arc, Mutex};

use sha2::Digest as _;

use sandbox_control::fault::{IoErrorKind, IoFailure};
use sandbox_control::image::digest::Digest;
use sandbox_control::image::error::ImageError;
use sandbox_control::image::export::{assemble_export, export_inputs};
use sandbox_control::image::import::{import_inputs, import_step, ImportEvent, ImportStep};
use sandbox_control::image::metadata::{
    layer_diff_ids, CachedImageMetadata, ConfigReading, ImageConfig,
};
use sandbox_control::image::prepared::{
    validate_metadata, FlatRootfsRef, Platform, PreparedRootMetadata, Reference,
};
use sandbox_control::image::sparse::{SparseCopy, SparseWrite};

const ABI: u32 = 1;
const CHUNK: usize = 4096;

fn sha256(bytes: &[u8]) -> String {
    format!("sha256:{}", hex::encode(sha2::Sha256::digest(bytes)))
}

fn derive(manifest_digest: &Digest, diff_ids: &Vec<Digest>, platform: &Platform) -> Digest {
    let mut inputs = manifest_digest.text();
    for diff_id in diff_ids {
        inputs.push_str(&diff_id.text());
    }
    inputs.push_str(&platform.os);
    inputs.push_str(&platform.arch);
    Digest::parse(&sha256(inputs.as_bytes())).unwrap()
}

fn parse_config(bytes: &[u8]) -> ConfigReading {
    let value: serde_json::Value = serde_json::from_slice(bytes)
        .map_err(|error| ImageError::ConfigParse(error.to_string()))?;
    let diff_ids = value.get("rootfs").unwrap().get("diff_ids").unwrap().as_array().unwrap();
    Ok((
        ImageConfig { document: "{}".to_string() },
        diff_ids.iter().map(|id| id.as_str().unwrap().to_string()).collect(),
    ))
}

/// A cache in memory. Its files are keyed by the digests that name them.
struct Cache {
    blobs: HashMap<String, Vec<u8>>,
    roots: HashMap<String, FlatRootfsRef>,
    images: HashMap<String, CachedImageMetadata>,
}

impl Cache {
    fn empty() -> Self {
        Cache { blobs: HashMap::new(), roots: HashMap::new(), images: HashMap::new() }
    }

    fn export(
        &self,
        reference: &Reference,
        platform: &Platform,
    ) -> Result<(PreparedRootMetadata, Vec<u8>), ImageError> {
        let inputs = export_inputs(reference, self.images.get(&reference.text).cloned())?;
        let root = self.roots.get(&inputs.manifest_digest.text()).cloned();
        let metadata =
            assemble_export(inputs, reference, platform, root, ABI, &parse_config, &derive)?;
        let artifact = &self.blobs[&metadata.root.artifact_digest];
        let payload = zstd::encode_all(&artifact[..], 0).unwrap();
        Ok((metadata, payload))
    }

    fn import(
        &mut self,
        reference: &Reference,
        platform: &Platform,
        metadata: &PreparedRootMetadata,
        payload: &[u8],
    ) -> Result<Vec<ImportStep>, ImageError> {
        validate_metadata(metadata, reference, platform, ABI, &parse_config, &derive)?;
        let inputs = import_inputs(metadata)?;
        let manifest_digest = inputs.manifest_digest.text();
        let mut candidate: Vec<u8> = Vec::new();
        let mut taken: Vec<ImportStep> = Vec::new();
        let mut step = ImportStep::ReadCurrentRef;
        while step != ImportStep::Done {
            taken.push(step);
            let event = match step {
                ImportStep::ReadCurrentRef => {
                    ImportEvent::CurrentRef(self.roots.contains_key(&manifest_digest))
                }
                ImportStep::Decompress { .. } => {
                    match decompress(payload, metadata.root.virtual_size_bytes) {
                        Ok((file, digest, size)) => {
                            candidate = file;
                            ImportEvent::Decompressed { digest, size }
                        }
                        Err(error) => ImportEvent::Failed(error),
                    }
                }
                ImportStep::Inspect { .. } => ImportEvent::Inspected(fault_in(&candidate)),
                ImportStep::PublishBlob => {
                    self.blobs.insert(metadata.root.artifact_digest.clone(), candidate.clone());
                    ImportEvent::Completed
                }
                ImportStep::WriteFlatRef => {
                    self.roots.insert(manifest_digest.clone(), metadata.root.clone());
                    ImportEvent::Completed
                }
                ImportStep::WriteImageMetadata => {
                    self.images.insert(reference.text.clone(), metadata.image.clone());
                    ImportEvent::Completed
                }
                ImportStep::Done => unreachable!("the loop ends here"),
            };
            step = import_step(step, &metadata.root, event)?;
        }
        Ok(taken)
    }
}

/// What is wrong with a filesystem: it must carry the magic number of ext4.
fn fault_in(file: &[u8]) -> Option<String> {
    if file.get(0x438..0x43a) == Some(&[0x53, 0xef][..]) {
        None
    } else {
        Some("no ext4 superblock".to_string())
    }
}

fn io_error(error: std::io::Error) -> ImageError {
    ImageError::Io(IoFailure::new(IoErrorKind::Other, &error.to_string()))
}

fn decompress(payload: &[u8], expected_size: u64) -> Result<(Vec<u8>, String, u64), ImageError> {
    let mut decoder = zstd::stream::read::Decoder::new(payload).map_err(io_error)?;
    let mut buffer = vec![0u8; CHUNK];
    let mut copy = SparseCopy::new(expected_size);
    let mut file: Vec<u8> = Vec::new();
    loop {
        let count = decoder.read(&mut buffer).map_err(io_error)?;
        if count == 0 {
            break;
        }
        let position = copy.written() as usize;
        if copy.accept(&buffer[..count])? == SparseWrite::Store {
            file.resize(position, 0);
            file.extend_from_slice(&buffer[..count]);
        }
    }
    file.resize(copy.written() as usize, 0);
    let (digest, size) = copy.finish();
    Ok((file, digest, size))
}

#[test]
fn round_trips_a_sparse_prepared_root_without_layer_artifacts() {
    let platform =
        Platform { os: "linux".to_string(), arch: "amd64".to_string(), variant: None };
    let raw_config_json = format!(
        r#"{{"architecture":"{}","os":"{}","rootfs":{{"type":"layers","diff_ids":[]}},"config":{{}}}}"#,
        platform.arch, platform.os
    );
    let config_digest = sha256(raw_config_json.as_bytes());
    let registry_manifest_json = format!(
        r#"{{
              "schemaVersion": 2,
              "mediaType": "application/vnd.oci.image.manifest.v1+json",
              "config": {{
                "mediaType": "application/vnd.oci.image.config.v1+json",
                "digest": "{config_digest}",
                "size": {}
              }},
              "layers": []
            }}"#,
        raw_config_json.len()
    );
    let manifest_digest = Digest::parse(&sha256(registry_manifest_json.as_bytes())).unwrap();
    // A registry names the manifest by its original bytes; the cache holds it serialized anew.
    let raw_manifest_json = serde_json::to_string(
        &serde_json::from_str::<serde_json::Value>(&registry_manifest_json).unwrap(),
    )
    .unwrap();
    assert_ne!(sha256(raw_manifest_json.as_bytes()), manifest_digest.text());
    let reference = Reference {
        text: format!("registry.example/runner@{}", manifest_digest.text()),
        digest: Some(manifest_digest.text()),
    };
    let mut artifact = vec![0u8; 16 * CHUNK];
    artifact[0x438] = 0x53;
    artifact[0x439] = 0xef;
    artifact[5 * CHUNK + 7] = 1;
    let artifact_digest = sha256(&artifact);
    let root = FlatRootfsRef {
        schema: 1,
        manifest_digest: manifest_digest.text(),
        derivation_digest: derive(&manifest_digest, &Vec::new(), &platform).text(),
        artifact_digest: artifact_digest.clone(),
        materializer_abi: ABI,
        uuid: "00000000000000000000000000000000".to_string(),
        virtual_size_bytes: artifact.len() as u64,
        inode_count: 11,
        content_bytes: 0,
    };
    let image = CachedImageMetadata {
        manifest_digest: manifest_digest.text(),
        config_digest,
        raw_manifest_json,
        raw_config_json,
        config: ImageConfig { document: "{}".to_string() },
        layers: Vec::new(),
    };
    assert!(layer_diff_ids(&image).unwrap().is_empty());
    let mut source_cache = Cache::empty();
    source_cache.blobs.insert(artifact_digest.clone(), artifact.clone());
    source_cache.roots.insert(manifest_digest.text(), root.clone());
    source_cache.images.insert(reference.text.clone(), image);

    let (metadata, payload) = source_cache.export(&reference, &platform).unwrap();
    assert_eq!(metadata.root, root);
    assert!(payload.len() < artifact.len());

    let imported_cache = Arc::new(Mutex::new(Cache::empty()));
    let runtime = tokio::runtime::Runtime::new().unwrap();
    let mut imports = Vec::new();
    for _ in 0..2 {
        let cache = imported_cache.clone();
        let (reference, platform) = (reference.clone(), platform.clone());
        let (metadata, payload) = (metadata.clone(), payload.clone());
        imports.push(runtime.spawn_blocking(move || {
            cache.lock().unwrap().import(&reference, &platform, &metadata, &payload)
        }));
    }
    let mut taken: Vec<Vec<ImportStep>> = Vec::new();
    for import in imports {
        taken.push(runtime.block_on(import).unwrap().unwrap());
    }
    taken.sort_by_key(|steps| steps.len());
    assert_eq!(
        taken,
        vec![
            vec![
                ImportStep::ReadCurrentRef,
                ImportStep::Decompress { present: true },
                ImportStep::Inspect { present: true },
                ImportStep::WriteImageMetadata,
            ],
            vec![
                ImportStep::ReadCurrentRef,
                ImportStep::Decompress { present: false },
                ImportStep::Inspect { present: false },
                ImportStep::PublishBlob,
                ImportStep::WriteFlatRef,
                ImportStep::WriteImageMetadata,
            ],
        ]
    );
    let mut imported_cache = imported_cache.lock().unwrap();
    assert!(imported_cache.images.contains_key(&reference.text));
    assert_eq!(imported_cache.roots.get(&manifest_digest.text()), Some(&root));
    assert_eq!(imported_cache.blobs[&artifact_digest], artifact);
    assert!(fault_in(&imported_cache.blobs[&artifact_digest]).is_none());
    let other = Reference {
        text: format!("mirror.example/runner@{}", manifest_digest.text()),
        digest: Some(manifest_digest.text()),
    };
    let mut mirrored = metadata.clone();
    mirrored.source_reference = other.text.clone();
    assert!(imported_cache.import(&other, &platform, &mirrored, &payload).is_ok());
    assert_eq!(imported_cache.images.len(), 2);
    assert_eq!(imported_cache.roots.len(), 1);
    assert_eq!(imported_cache.blobs.len(), 1);
    imported_cache.images.clear();
    assert!(imported_cache.import(&reference, &platform, &metadata, b"corrupt").is_err());
    assert!(imported_cache.images.is_empty());

    let mut corrupt_cache = Cache::empty();
    assert!(corrupt_cache.import(&reference, &platform, &metadata, b"corrupt").is_err());
    assert!(corrupt_cache.roots.get(&manifest_digest.text()).is_none());
    assert!(corrupt_cache.blobs.is_empty());
    assert!(corrupt_cache.images.is_empty());
}

#[test]
fn a_filesystem_that_is_not_sound_is_refused() {
    let artifact = vec![7u8; CHUNK];
    let fault = fault_in(&artifact);
    assert_eq!(fault.as_deref(), Some("no ext4 superblock"));
    let root = FlatRootfsRef {
        schema: 1,
        manifest_digest: sha256(b"manifest"),
        derivation_digest: sha256(b"inputs"),
        artifact_digest: sha256(&artifact),
        materializer_abi: ABI,
        uuid: "00".to_string(),
        virtual_size_bytes: artifact.len() as u64,
        inode_count: 11,
        content_bytes: 0,
    };
    for present in [false, true] {
        let event = ImportEvent::Inspected(fault.clone());
        match import_step(ImportStep::Inspect { present }, &root, event) {
            Err(ImageError::ConfigParse(message)) => assert_eq!(
                message,
                "prepared root is not a valid ext4 artifact: no ext4 superblock"
            ),
            _ => panic!("no filesystem"),
        }
    }
}

#[test]
fn a_payload_with_other_bytes_is_not_published() {
    let root = FlatRootfsRef {
        schema: 1,
        manifest_digest: sha256(b"manifest"),
        derivation_digest: sha256(b"inputs"),
        artifact_digest: sha256(b"promised"),
        materializer_abi: ABI,
        uuid: "00".to_string(),
        virtual_size_bytes: 8,
        inode_count: 11,
        content_bytes: 0,
    };
    for (bytes, published) in [(b"promised", true), (b"tampered", false)] {
        let payload = zstd::encode_all(&bytes[..], 0).unwrap();
        let (_, digest, size) = decompress(&payload, root.virtual_size_bytes).unwrap();
        let event = ImportEvent::Decompressed { digest, size };
        let next = import_step(ImportStep::Decompress { present: false }, &root, event);
        assert_eq!(matches!(next, Ok(ImportStep::Inspect { .. })), published);
    }
    let payload = zstd::encode_all(&b"promised and more"[..], 0).unwrap();
    assert!(decompress(&payload, root.virtual_size_bytes).is_err());
}
