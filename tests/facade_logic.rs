use fallible::listing::{collect_listing, VersionListing, VersionPage};
use fallible::s3_facade::{
    apply_transform, bucket_metadata, copy_source, exists_from_probe, move_step, resolve_arn,
    MoveAction, MoveStage,
};
use fallible::storage_facade::{DataStoreId, FacadeError};
use std::collections::BTreeMap;

fn xor_encrypt(data: &[u8]) -> Result<Vec<u8>, String> {
    Ok(data.iter().map(|b| b ^ 0x5a).collect())
}

fn xor_decrypt(data: &[u8]) -> Result<Vec<u8>, String> {
    Ok(data.iter().map(|b| b ^ 0x5a).collect())
}

fn failing(_: &[u8]) -> Result<Vec<u8>, String> {
    Err("bad key".to_string())
}

type NoTransform = fn(&[u8]) -> Result<Vec<u8>, String>;

/// A bucket held in memory, which carries out the actions that the facade asks for.
struct Bucket {
    name: String,
    objects: BTreeMap<String, Vec<u8>>,
}

impl Bucket {
    fn new(name: &str) -> Self {
        Bucket { name: name.to_string(), objects: BTreeMap::new() }
    }

    fn copy(&mut self, source: &str, key: &str) -> Result<(), FacadeError> {
        let prefix = format!("{}/", self.name);
        let from = source.strip_prefix(prefix.as_str()).ok_or(FacadeError::Backend("bad source".into()))?;
        let body = self.objects.get(from).cloned().ok_or(FacadeError::NotFound(from.to_string()))?;
        self.objects.insert(key.to_string(), body);
        Ok(())
    }

    fn head(&self, key: &str) -> Result<(), FacadeError> {
        if self.objects.contains_key(key) { Ok(()) } else { Err(FacadeError::NotFound(key.to_string())) }
    }

    fn write(&mut self, key: &str, data: &[u8]) {
        let body = apply_transform(data, None::<NoTransform>).ok().unwrap();
        self.objects.insert(key.to_string(), body);
    }

    fn read(&self, key: &str) -> Vec<u8> {
        let raw = self.objects.get(key).cloned().unwrap();
        apply_transform(&raw, None::<NoTransform>).ok().unwrap()
    }

    fn holds(&self, key: &str) -> bool {
        exists_from_probe(&self.head(key))
    }

    fn run_move(&mut self, from: &str, to: &str) -> Result<(), FacadeError> {
        let bucket = self.name.clone();
        let mut action = move_step(&bucket, from, to, MoveStage::Start);
        loop {
            action = match action {
                MoveAction::Copy { source, key } => {
                    let outcome = self.copy(&source, &key);
                    move_step(&bucket, from, to, MoveStage::Copied(outcome))
                }
                MoveAction::Delete { key } => {
                    self.objects.remove(&key);
                    move_step(&bucket, from, to, MoveStage::Deleted(Ok(())))
                }
                MoveAction::Finish(outcome) => return outcome,
            }
        }
    }
}

fn keys(v: &[&str]) -> Vec<Option<String>> {
    v.iter().map(|k| Some(k.to_string())).collect()
}

#[test]
fn resolve_arn_prefers_reported() {
    let arn = resolve_arn("my-bucket", Some("arn:aws:s3:::reported".to_string()));
    assert_eq!(arn, "arn:aws:s3:::reported");
}

#[test]
fn resolve_arn_synthesizes_from_name() {
    assert_eq!(resolve_arn("my-bucket", None), "arn:aws:s3:::my-bucket");
}

#[test]
fn bucket_metadata_on_success() {
    let m = bucket_metadata("tests-bucket", "Test context", Ok(None)).ok().unwrap();
    assert_eq!(m.name, "tests-bucket");
    assert_eq!(m.description, "Test context");
    match m.id {
        DataStoreId::S3(arn) => assert_eq!(arn, "arn:aws:s3:::tests-bucket"),
        _ => panic!("DataStoreId should be S3 variant"),
    }
}

#[test]
fn bucket_metadata_keeps_reported_arn() {
    let m = bucket_metadata("b", "d", Ok(Some("arn:x".to_string()))).ok().unwrap();
    assert!(matches!(m.id, DataStoreId::S3(ref a) if a == "arn:x"));
}

#[test]
fn construction_fails_when_probe_fails() {
    let r = bucket_metadata("missing-bucket", "d", Err("NoSuchBucket".to_string()));
    assert!(matches!(r, Err(FacadeError::Construction(ref m)) if m == "NoSuchBucket"));
}

#[test]
fn construction_needs_description_and_name() {
    assert!(matches!(bucket_metadata("b", "", Ok(None)), Err(FacadeError::Construction(_))));
    assert!(matches!(bucket_metadata("", "d", Ok(None)), Err(FacadeError::Construction(_))));
}

#[test]
fn copy_source_joins_bucket_and_key() {
    assert_eq!(copy_source("bucket", "dir/a.txt"), "bucket/dir/a.txt");
}

#[test]
fn exists_follows_probe() {
    assert!(exists_from_probe(&Ok::<u8, FacadeError>(1)));
    assert!(!exists_from_probe(&Err::<u8, FacadeError>(FacadeError::Backend("denied".into()))));
}

#[test]
fn transform_absent_copies_data() {
    let data = b"Hello, S3 integration test!";
    let out = apply_transform(data, None::<NoTransform>).ok().unwrap();
    assert_eq!(out, data.to_vec());
}

#[test]
fn transform_encrypts_and_decrypts() {
    let data = b"Secret message for encryption test";
    let stored = apply_transform(data, Some(xor_encrypt)).ok().unwrap();
    assert_ne!(stored, data.to_vec());
    let raw = apply_transform(&stored, None::<NoTransform>).ok().unwrap();
    assert_eq!(raw, stored);
    let back = apply_transform(&stored, Some(xor_decrypt)).ok().unwrap();
    assert_eq!(back, data.to_vec());
}

#[test]
fn transform_failure_is_reported() {
    let r = apply_transform(b"abc", Some(failing));
    assert!(matches!(r, Err(FacadeError::Transform(ref m)) if m == "bad key"));
}

#[test]
fn move_steps_copy_then_delete() {
    match move_step("b", "src.txt", "dst.txt", MoveStage::Start) {
        MoveAction::Copy { source, key } => {
            assert_eq!(source, "b/src.txt");
            assert_eq!(key, "dst.txt");
        }
        _ => panic!("a move starts with a copy"),
    }
    match move_step("b", "src.txt", "dst.txt", MoveStage::Copied(Ok(()))) {
        MoveAction::Delete { key } => assert_eq!(key, "src.txt"),
        _ => panic!("a successful copy is followed by a delete"),
    }
}

#[test]
fn move_stops_after_failed_copy() {
    let r = move_step("b", "a", "c", MoveStage::Copied(Err(FacadeError::NotFound("a".into()))));
    assert!(matches!(r, MoveAction::Finish(Err(FacadeError::NotFound(_)))));
    let r = move_step("b", "a", "c", MoveStage::Deleted(Err(FacadeError::Backend("x".into()))));
    assert!(matches!(r, MoveAction::Finish(Err(FacadeError::Backend(_)))));
}

#[test]
fn listing_sorts_across_pages() {
    let pages = vec![
        keys(&["pre/subdir/c", "pre/b"]),
        vec![None, Some("pre/a".to_string())],
    ];
    assert_eq!(collect_listing(pages), vec!["pre/a", "pre/b", "pre/subdir/c"]);
}

#[test]
fn listing_of_nothing_is_empty() {
    assert!(collect_listing(vec![]).is_empty());
    assert!(collect_listing(vec![vec![], vec![None]]).is_empty());
}

#[test]
fn listing_orders_by_bytes() {
    let pages = vec![keys(&["b", "B", "ab", "a", "é", "z"])];
    assert_eq!(collect_listing(pages), vec!["B", "a", "ab", "b", "z", "é"]);
}

#[test]
fn version_listing_follows_markers() {
    let mut l = VersionListing::first(VersionPage {
        versions: keys(&["v1", "v2"]),
        next_key_marker: Some("k".to_string()),
        next_version_id_marker: Some("v2".to_string()),
        is_truncated: Some(true),
    });
    assert_eq!(l.next_markers(), Some(("k".to_string(), "v2".to_string())));
    l.absorb(VersionPage {
        versions: vec![Some("v3".to_string()), None],
        next_key_marker: None,
        next_version_id_marker: None,
        is_truncated: None,
    });
    assert_eq!(l.next_markers(), None);
    assert_eq!(l.into_versions(), vec!["v1", "v2", "v3"]);
}

#[test]
fn version_listing_missing_markers_read_empty() {
    let l = VersionListing::first(VersionPage {
        versions: vec![],
        next_key_marker: None,
        next_version_id_marker: None,
        is_truncated: Some(true),
    });
    assert_eq!(l.next_markers(), Some((String::new(), String::new())));
}

#[test]
fn scenario_write_then_read() {
    let mut b = Bucket::new("bucket");
    b.write("write-read/test-file.txt", b"Hello, S3 integration test!");
    assert_eq!(b.read("write-read/test-file.txt"), b"Hello, S3 integration test!".to_vec());
}

#[test]
fn scenario_existence_lifecycle() {
    let mut b = Bucket::new("bucket");
    assert!(!b.holds("file-exists/existing-file.txt"));
    b.write("file-exists/existing-file.txt", b"test content");
    assert!(b.holds("file-exists/existing-file.txt"));
    assert!(!b.holds("file-exists/nonexistent-file.txt"));
    b.objects.remove("file-exists/existing-file.txt");
    assert!(!b.holds("file-exists/existing-file.txt"));
}

#[test]
fn scenario_move() {
    let mut b = Bucket::new("bucket");
    b.write("move-file/source-file.txt", b"content to be moved");
    assert!(b.run_move("move-file/source-file.txt", "move-file/dest-file.txt").is_ok());
    assert!(!b.holds("move-file/source-file.txt"));
    assert!(b.holds("move-file/dest-file.txt"));
    assert_eq!(b.read("move-file/dest-file.txt"), b"content to be moved".to_vec());
}

#[test]
fn scenario_move_of_missing_source_keeps_bucket() {
    let mut b = Bucket::new("bucket");
    b.write("other.txt", b"x");
    assert!(matches!(b.run_move("missing.txt", "dest.txt"), Err(FacadeError::NotFound(_))));
    assert!(!b.holds("dest.txt"));
    assert!(b.holds("other.txt"));
}

#[test]
fn scenario_copy() {
    let mut b = Bucket::new("bucket");
    b.write("copy-file/original-file.txt", b"content to be copied");
    let source = copy_source(&b.name, "copy-file/original-file.txt");
    assert!(b.copy(&source, "copy-file/copied-file.txt").is_ok());
    assert!(b.holds("copy-file/original-file.txt"));
    assert!(b.holds("copy-file/copied-file.txt"));
    assert_eq!(b.read("copy-file/original-file.txt"), b.read("copy-file/copied-file.txt"));
}
