use std::io::Read;

use clj_pack::digest::{hex_digest, to_hex};
use clj_pack::error::PackError;
use clj_pack::pack::archive::{archive_names, create_payload, hash_file, RuntimeFile};

fn runtime_file(path: &str, data: &[u8], mode: u32) -> RuntimeFile {
    RuntimeFile {
        path: path.to_string(),
        dir: false,
        data: data.to_vec(),
        mode,
    }
}

fn runtime_dir(path: &str) -> RuntimeFile {
    RuntimeFile {
        path: path.to_string(),
        dir: true,
        data: Vec::new(),
        mode: 0o755,
    }
}

fn unpack(payload: &[u8]) -> Vec<(String, bool, Vec<u8>, u32)> {
    let decoder = flate2::read::GzDecoder::new(payload);
    let mut archive = tar::Archive::new(decoder);
    let mut members = Vec::new();
    for entry in archive.entries().unwrap() {
        let mut entry = entry.unwrap();
        let name = entry.path().unwrap().to_string_lossy().to_string();
        let dir = entry.header().entry_type().is_dir();
        let mode = entry.header().mode().unwrap();
        let mut data = Vec::new();
        entry.read_to_end(&mut data).unwrap();
        members.push((name, dir, data, mode));
    }
    members
}

#[test]
fn hash_file_is_deterministic() {
    let h1 = hash_file(b"hello world");
    let h2 = hash_file(b"hello world");
    assert_eq!(h1, h2);
}

#[test]
fn hash_file_is_16_chars() {
    let hash = hash_file(b"content");
    assert_eq!(hash.len(), 16);
    assert!(hash
        .chars()
        .all(|c| c.is_ascii_digit() || ('a'..='f').contains(&c)));
}

#[test]
fn hash_file_different_content_different_hash() {
    let h1 = hash_file(b"content A");
    let h2 = hash_file(b"content B");
    assert_ne!(h1, h2);
}

#[test]
fn hash_file_is_the_start_of_the_sha256_digest() {
    assert_eq!(hash_file(b"hello world"), "b94d27b9934d3e08");
    assert_eq!(hash_file(b""), "e3b0c44298fc1c14");
    assert_eq!(hash_file(b"abc"), "ba7816bf8f01cfea");
}

#[test]
fn hex_digest_is_the_sha256_digest() {
    assert_eq!(
        hex_digest(b"hello world"),
        "b94d27b9934d3e08a52e52d7da7dabfac484efe37a5380ee9088f7ace2efcde9"
    );
    assert_eq!(
        hex_digest(b""),
        "e3b0c44298fc1c149afbf4c8996fb92427ae41e4649b934ca495991b7852b855"
    );
    assert_ne!(hex_digest(b"hello world"), to_hex(b"hello world"));
}

#[test]
fn to_hex_writes_two_lowercase_digits_per_byte() {
    assert_eq!(to_hex(&[]), "");
    assert_eq!(to_hex(&[0]), "00");
    assert_eq!(to_hex(&[0x0f, 0xf0, 0xab, 0x09, 0xff]), "0ff0ab09ff");
    assert_eq!(to_hex(&[1, 2, 3]), "010203");
}

#[test]
fn create_payload_produces_tar_gz() {
    let runtime = vec![runtime_dir("bin"), runtime_file("bin/java", b"fake java", 0o755)];
    let payload = create_payload(&runtime, b"fake jar content").unwrap();
    assert!(payload.len() > 0);
    assert_eq!(&payload[..2], &[0x1f, 0x8b]);
}

#[test]
fn create_payload_contains_runtime_and_jar() {
    let runtime = vec![runtime_dir("bin"), runtime_file("bin/java", b"fake", 0o755)];
    let payload = create_payload(&runtime, b"jar data").unwrap();
    let entries: Vec<String> = unpack(&payload).into_iter().map(|m| m.0).collect();
    assert!(entries.iter().any(|e| e == "app.jar"));
    assert!(entries.iter().any(|e| e.starts_with("runtime/")));
    assert!(!entries.iter().any(|e| e.contains("myapp.jar")));
}

#[test]
fn create_payload_keeps_order_bytes_and_modes() {
    let runtime = vec![
        runtime_dir("bin"),
        runtime_file("bin/java", b"fake java", 0o755),
        runtime_file("release", b"JAVA_VERSION=21", 0o644),
    ];
    let payload = create_payload(&runtime, b"jar data").unwrap();
    let members = unpack(&payload);
    assert_eq!(members.len(), 5);
    assert_eq!(members[0].0, "runtime");
    assert!(members[0].1);
    assert_eq!(members[0].3, 0o755);
    assert_eq!(members[1].0, "runtime/bin");
    assert!(members[1].1);
    assert_eq!(
        members[2],
        ("runtime/bin/java".to_string(), false, b"fake java".to_vec(), 0o755)
    );
    assert_eq!(
        members[3],
        ("runtime/release".to_string(), false, b"JAVA_VERSION=21".to_vec(), 0o644)
    );
    assert_eq!(
        members[4],
        ("app.jar".to_string(), false, b"jar data".to_vec(), 0o644)
    );
}

#[test]
fn create_payload_is_the_same_for_the_same_input() {
    let runtime = vec![runtime_file("release", b"x", 0o644)];
    let first = create_payload(&runtime, b"jar").unwrap();
    let second = create_payload(&runtime, b"jar").unwrap();
    assert_eq!(first, second);
    let other = create_payload(&runtime, b"jaz").unwrap();
    assert_ne!(first, other);
}

#[test]
fn create_payload_of_an_empty_runtime_has_two_members() {
    let payload = create_payload(&[], b"jar").unwrap();
    let members = unpack(&payload);
    assert_eq!(members.len(), 2);
    assert_eq!(members[1].0, "app.jar");
}

#[test]
fn create_payload_refuses_a_path_that_leaves_the_tree() {
    for bad in [
        "../escape",
        "bin/../../escape",
        "/etc/passwd",
        "",
        "bin//java",
        "bin/",
        "./bin",
        "bin/./java",
        "..",
        ".",
        "bin\\java",
        "bin\0java",
    ] {
        let runtime = vec![
            runtime_file("release", b"x", 0o644),
            runtime_file(bad, b"x", 0o644),
            runtime_file("../later", b"x", 0o644),
        ];
        assert_eq!(
            create_payload(&runtime, b"jar"),
            Err(PackError::BadEntry(bad.to_string()))
        );
    }
}

#[test]
fn create_payload_refuses_a_mode_that_does_not_fit() {
    let runtime = vec![runtime_file("release", b"x", 0o10000000)];
    assert_eq!(
        create_payload(&runtime, b"jar"),
        Err(PackError::BadEntry("release".to_string()))
    );
    let runtime = vec![runtime_file("release", b"x", 0o7777777)];
    let members = unpack(&create_payload(&runtime, b"jar").unwrap());
    assert_eq!(members[1].3, 0o7777777);
}

#[test]
fn create_payload_stores_names_as_they_are_given() {
    let long = format!("{}/{}", "d".repeat(90), "f".repeat(120));
    let runtime = vec![
        runtime_file("..hidden", b"1", 0o644),
        runtime_file("a.b/...", b"2", 0o600),
        runtime_file(&long, b"3", 0o644),
        runtime_file("h\u{e9}/\u{4e2d}", b"4", 0o644),
        runtime_dir("legal"),
    ];
    let members = unpack(&create_payload(&runtime, b"jar").unwrap());
    assert_eq!(members.len(), 7);
    assert_eq!(members[1].0, "runtime/..hidden");
    assert_eq!(members[2].0, "runtime/a.b/...");
    assert_eq!(members[2].3, 0o600);
    assert_eq!(members[3].0, format!("runtime/{long}"));
    assert_eq!(members[3].2, b"3");
    assert_eq!(members[4].0, "runtime/h\u{e9}/\u{4e2d}");
    assert_eq!(members[5].0, "runtime/legal");
    assert!(members[5].1);
    assert_eq!(members[6].0, "app.jar");
}

#[test]
fn archive_names_do_not_depend_on_the_bundle() {
    let runtime = vec![runtime_dir("bin"), runtime_file("bin/java", b"fake", 0o755)];
    assert_eq!(
        archive_names(&runtime),
        vec!["runtime", "runtime/bin", "runtime/bin/java", "app.jar"]
    );
    assert_eq!(archive_names(&[]), vec!["runtime", "app.jar"]);
}
