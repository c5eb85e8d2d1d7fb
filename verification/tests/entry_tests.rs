use rustic::cache::resolve_cache_root;
use rustic::cargo::Project;
use rustic::ident::compute_entry_name;
use rustic::rand::RandomSequences;
use rustic::tmpdir::TmpDir;
use rustic::Error;

use sha1::{Digest, Sha1};

#[test]
fn entry_name_known_digest() {
    // SHA-1 of "abc" is a9993e364706816aba3e25717850c26c9cd0d89d.
    assert_eq!(compute_entry_name("abc", "x"), "a9993e364706816a-x");
}

#[test]
fn entry_name_matches_external_digest() {
    let digest = Sha1::digest("/tmp/a".as_bytes());
    let mut expected = String::new();
    for b in digest.iter().take(8) {
        expected.push_str(&format!("{:02x}", b));
    }
    expected.push('-');
    expected.push_str("hello");
    assert_eq!(compute_entry_name("/tmp/a", "hello"), expected);
}

#[test]
fn entry_name_deterministic() {
    let a = compute_entry_name("/home/user/scripts", "tool");
    let b = compute_entry_name("/home/user/scripts", "tool");
    assert_eq!(a, b);
}

#[test]
fn entry_name_distinguishes_directories() {
    let a = compute_entry_name("/tmp/a", "hello");
    let b = compute_entry_name("/tmp/b", "hello");
    assert_ne!(a, b);
}

#[test]
fn cache_root_override_wins() {
    let r = resolve_cache_root(
        Some("/custom/cache".to_string()),
        Some("/home/user".to_string()),
    );
    assert_eq!(r.unwrap(), "/custom/cache");
}

#[test]
fn cache_root_home_fallback() {
    let r = resolve_cache_root(None, Some("/home/user".to_string()));
    assert_eq!(r.unwrap(), "/home/user/.cache/rustic");
}

#[test]
fn cache_root_missing() {
    match resolve_cache_root(None, None) {
        Err(Error::NoCacheDir) => {}
        other => panic!("expected NoCacheDir, got {:?}", other),
    }
}

#[test]
fn project_layout() {
    let p = Project::new("/cache", "/tmp/a", "hello");
    let digest = Sha1::digest("/tmp/a".as_bytes());
    let mut hex = String::new();
    for b in digest.iter().take(8) {
        hex.push_str(&format!("{:02x}", b));
    }
    let dir = format!("/cache/{}-hello", hex);
    assert_eq!(p.path(), &dir);
    assert_eq!(p.name().as_str(), "hello");
    assert_eq!(p.entry_point_path(), format!("{}/src/main.rs", dir));
    assert_eq!(p.manifest_path(), format!("{}/Cargo.toml", dir));
    assert_eq!(p.manifest_backup_path(), format!("{}/Cargo.toml.orig", dir));
    assert_eq!(p.lock_path(), format!("{}/Cargo.lock", dir));
    assert_eq!(p.stamp_path(), format!("{}/time.stamp", dir));
    assert_eq!(p.executable_path(), format!("{}/target/release/hello", dir));
}

#[test]
fn has_changed_missing_stamp() {
    let p = Project::new("/cache", "/tmp/a", "hello");
    assert_eq!(p.has_changed(100, None).unwrap(), true);
}

#[test]
fn has_changed_compares_times() {
    let p = Project::new("/cache", "/tmp/a", "hello");
    let stamp = b"100".to_vec();
    assert_eq!(p.has_changed(101, Some(&stamp)).unwrap(), true);
    assert_eq!(p.has_changed(100, Some(&stamp)).unwrap(), false);
    assert_eq!(p.has_changed(99, Some(&stamp)).unwrap(), false);
}

#[test]
fn update_cargo_toml_synthesizes() {
    let p = Project::new("/cache", "/tmp/a", "hello");
    let template = b"[package]\n".to_vec();
    let source = b"// Cargo.toml\n// serde = \"1\"\nfn main() {}\n".to_vec();
    assert_eq!(
        p.update_cargo_toml(&template, &source),
        b"[package]\nserde = \"1\"\n".to_vec()
    );
}

#[test]
fn update_timestamp_renders_decimal() {
    let p = Project::new("/cache", "/tmp/a", "hello");
    assert_eq!(p.update_timestamp(1700000000), b"1700000000".to_vec());
}

#[test]
fn timestamp_reads_recorded_value() {
    let p = Project::new("/cache", "/tmp/a", "hello");
    assert_eq!(p.timestamp(None).unwrap(), None);
    assert_eq!(p.timestamp(Some(&b"123".to_vec())).unwrap(), Some(123));
    let bad = b"later".to_vec();
    match p.timestamp(Some(&bad)) {
        Err(Error::MalformedTimestamp(content)) => assert_eq!(content, bad),
        other => panic!("expected MalformedTimestamp, got {:?}", other),
    }
}

#[test]
fn has_changed_malformed_stamp() {
    let p = Project::new("/cache", "/tmp/a", "hello");
    let stamp = b"99 red balloons".to_vec();
    match p.has_changed(100, Some(&stamp)) {
        Err(Error::MalformedTimestamp(content)) => assert_eq!(content, stamp),
        other => panic!("expected MalformedTimestamp, got {:?}", other),
    }
}

#[test]
fn tmp_dir_candidate_naming() {
    assert_eq!(TmpDir::candidate("/tmp", "Ab12Cd"), "/tmp/rust-Ab12Cd");
    let d = TmpDir::new("/tmp/rust-Ab12Cd".to_string());
    assert_eq!(d.path(), "/tmp/rust-Ab12Cd");
}

#[test]
fn random_sequence_maps_alphabet() {
    let g = RandomSequences::new();
    assert_eq!(g.sequence(&vec![0, 9, 10, 35, 36, 61]), "09AZaz");
    assert_eq!(g.sequence(&vec![]), "");
}
