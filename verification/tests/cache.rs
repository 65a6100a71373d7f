use clj_pack::config::{Target, TargetArch, TargetOs};
use clj_pack::error::PackError;
use clj_pack::jvm::cache::{
    archive_format, cache_key, cached_jdk_path, extract_and_cache, flatten_single_subdir,
    has_lone_dir, jdk_bin, macos_jdk_bin, ArchiveFormat, Entry, Node,
};
use clj_pack::jvm::adoptium::{release_url, Binary, Package, ReleaseAsset};
use clj_pack::jvm::{ensure_jdk, JdkAction, JdkEvent};

fn file(name: &str) -> Entry {
    Entry {
        name: name.to_string(),
        node: Node::File,
    }
}

fn dir(name: &str, entries: Vec<Entry>) -> Entry {
    Entry {
        name: name.to_string(),
        node: Node::Dir(entries),
    }
}

fn names(entries: &[Entry]) -> Vec<String> {
    entries.iter().map(|e| e.name.clone()).collect()
}

#[test]
fn cached_jdk_path_contains_version_and_target() {
    let target = Target {
        os: TargetOs::Linux,
        arch: TargetArch::X86_64,
    };
    let path = cached_jdk_path("/home/user/.clj-pack/cache", 21, &target);
    let name = std::path::Path::new(&path)
        .file_name()
        .unwrap()
        .to_str()
        .unwrap();
    assert_eq!(name, "runtime-21-linux-x86_64");
    assert_eq!(path, "/home/user/.clj-pack/cache/runtime-21-linux-x86_64");
}

#[test]
fn cache_key_names_version_os_and_arch() {
    let target = Target {
        os: TargetOs::MacOs,
        arch: TargetArch::Aarch64,
    };
    assert_eq!(cache_key(8, &target), "runtime-8-macos-aarch64");
    assert_eq!(cache_key(255, &target), "runtime-255-macos-aarch64");
    assert_eq!(cache_key(0, &target), "runtime-0-macos-aarch64");
}

#[test]
fn cache_keys_differ_for_different_inputs() {
    let oses = [TargetOs::Linux, TargetOs::MacOs];
    let arches = [TargetArch::X86_64, TargetArch::Aarch64];
    let mut keys: Vec<String> = Vec::new();
    for version in 0..=255u8 {
        for os in oses {
            for arch in arches {
                let key = cache_key(version, &Target { os, arch });
                assert_eq!(key, cache_key(version, &Target { os, arch }));
                keys.push(key);
            }
        }
    }
    let total = keys.len();
    keys.sort();
    keys.dedup();
    assert_eq!(keys.len(), total);
    assert_eq!(total, 1024);
}

#[test]
fn jdk_bin_returns_linux_path_by_default() {
    let dir = "/tmp/jdk";
    let path = jdk_bin(dir, "java", false);
    let expected = std::path::Path::new(dir).join("bin").join("java");
    assert_eq!(std::path::Path::new(&path), expected.as_path());
    assert_eq!(path, "/tmp/jdk/bin/java");
}

#[test]
fn jdk_bin_returns_macos_path_when_exists() {
    let dir = "/tmp/jdk";
    let macos_bin = std::path::Path::new(dir)
        .join("Contents")
        .join("Home")
        .join("bin");
    let probe = macos_jdk_bin(dir, "java");
    assert_eq!(std::path::Path::new(&probe), macos_bin.join("java").as_path());
    let path = jdk_bin(dir, "java", true);
    assert_eq!(path, probe);
    assert_eq!(path, "/tmp/jdk/Contents/Home/bin/java");
}

#[test]
fn flatten_single_subdir_flattens() {
    let root = vec![dir(
        "jdk-21.0.1",
        vec![dir("bin", vec![file("java")]), file("release")],
    )];
    assert!(has_lone_dir(&root));
    let flat = flatten_single_subdir(root);
    assert_eq!(names(&flat), vec!["bin", "release"]);
    assert_eq!(flat[0], dir("bin", vec![file("java")]));
    assert_eq!(flat[1], file("release"));
    assert!(!names(&flat).contains(&"jdk-21.0.1".to_string()));
}

#[test]
fn flatten_single_subdir_noop_for_multiple_entries() {
    let root = vec![dir("a", vec![]), dir("b", vec![])];
    assert!(!has_lone_dir(&root));
    let flat = flatten_single_subdir(root);
    assert_eq!(flat, vec![dir("a", vec![]), dir("b", vec![])]);
}

#[test]
fn flatten_single_subdir_noop_for_file() {
    let root = vec![file("file.txt")];
    assert!(!has_lone_dir(&root));
    let flat = flatten_single_subdir(root);
    assert_eq!(flat, vec![file("file.txt")]);
}

#[test]
fn flatten_of_empty_root_is_empty() {
    let flat = flatten_single_subdir(Vec::new());
    assert!(flat.is_empty());
}

#[test]
fn flatten_twice_is_flatten_once() {
    let once = flatten_single_subdir(vec![dir(
        "jdk-21.0.1",
        vec![dir("bin", vec![file("java")]), file("release")],
    )]);
    let twice = flatten_single_subdir(flatten_single_subdir(vec![dir(
        "jdk-21.0.1",
        vec![dir("bin", vec![file("java")]), file("release")],
    )]));
    assert_eq!(once, twice);
}

#[test]
fn flatten_hoists_one_level_only() {
    let flat = flatten_single_subdir(vec![dir("a", vec![dir("b", vec![file("c")])])]);
    assert_eq!(flat, vec![dir("b", vec![file("c")])]);
}

#[test]
fn archive_format_goes_by_the_ending() {
    assert_eq!(archive_format("jdk.tar.gz"), Some(ArchiveFormat::TarGz));
    assert_eq!(archive_format("jdk.tgz"), Some(ArchiveFormat::TarGz));
    assert_eq!(archive_format("jdk.zip"), Some(ArchiveFormat::Zip));
    assert_eq!(archive_format("jdk.tar"), None);
    assert_eq!(archive_format("zip"), None);
    assert_eq!(archive_format(""), None);
    assert_eq!(archive_format(".zip"), Some(ArchiveFormat::Zip));
    assert_eq!(archive_format("jdk.zip.txt"), None);
}

#[test]
fn extract_and_cache_plans_the_unpacking() {
    let target = Target {
        os: TargetOs::Linux,
        arch: TargetArch::Aarch64,
    };
    let plan = extract_and_cache("/c", 17, &target, Some("OpenJDK17.tar.gz"), true).unwrap();
    assert_eq!(plan.dest, "/c/runtime-17-linux-aarch64");
    assert!(plan.remove_stale);
    assert_eq!(plan.format, ArchiveFormat::TarGz);
    let plan = extract_and_cache("/c", 17, &target, Some("OpenJDK17.zip"), false).unwrap();
    assert!(!plan.remove_stale);
    assert_eq!(plan.format, ArchiveFormat::Zip);
}

#[test]
fn extract_and_cache_refuses_unknown_archives() {
    let target = Target {
        os: TargetOs::Linux,
        arch: TargetArch::Aarch64,
    };
    assert_eq!(
        extract_and_cache("/c", 17, &target, Some("jdk.rar"), false),
        Err(PackError::JdkDownload(
            "unknown archive format: jdk.rar".to_string()
        ))
    );
    assert_eq!(
        extract_and_cache("/c", 17, &target, None, false),
        Err(PackError::JdkDownload("invalid archive path".to_string()))
    );
}

#[test]
fn populated_cache_is_reused_without_fetching() {
    let target = Target {
        os: TargetOs::Linux,
        arch: TargetArch::X86_64,
    };
    assert_eq!(
        ensure_jdk("/c", 21, &target, JdkEvent::Started { cached: true }),
        JdkAction::Done(Ok("/c/runtime-21-linux-x86_64".to_string()))
    );
}

#[test]
fn missing_runtime_is_asked_for_fetched_and_unpacked() {
    let target = Target {
        os: TargetOs::Linux,
        arch: TargetArch::X86_64,
    };
    assert_eq!(
        ensure_jdk("/c", 21, &target, JdkEvent::Started { cached: false }),
        JdkAction::AskCatalog {
            url: release_url(21, &target)
        }
    );
    let release = ReleaseAsset {
        binary: Binary {
            package: Package {
                link: "https://example.org/jdk.tar.gz".to_string(),
                checksum: "aa".to_string(),
                size: 7,
                name: "jdk.tar.gz".to_string(),
            },
        },
    };
    assert_eq!(
        ensure_jdk("/c", 21, &target, JdkEvent::Asked(Ok(release.clone()))),
        JdkAction::Fetch { release }
    );
    assert_eq!(
        ensure_jdk(
            "/c",
            21,
            &target,
            JdkEvent::Fetched(Ok("/c/jdk.tar.gz".to_string()))
        ),
        JdkAction::Unpack {
            archive: "/c/jdk.tar.gz".to_string()
        }
    );
    assert_eq!(
        ensure_jdk(
            "/c",
            21,
            &target,
            JdkEvent::Unpacked(Ok("/c/runtime-21-linux-x86_64".to_string()))
        ),
        JdkAction::Done(Ok("/c/runtime-21-linux-x86_64".to_string()))
    );
}

#[test]
fn first_error_ends_the_work_on_the_runtime() {
    let target = Target {
        os: TargetOs::Linux,
        arch: TargetArch::X86_64,
    };
    let asked = PackError::JdkDownload("no JDK 21 found for linux/x64".to_string());
    assert_eq!(
        ensure_jdk("/c", 21, &target, JdkEvent::Asked(Err(asked.clone()))),
        JdkAction::Done(Err(asked))
    );
    let fetched = PackError::ChecksumMismatch {
        expected: "aa".to_string(),
        actual: "bb".to_string(),
    };
    assert_eq!(
        ensure_jdk("/c", 21, &target, JdkEvent::Fetched(Err(fetched.clone()))),
        JdkAction::Done(Err(fetched))
    );
    let unpacked = PackError::JdkDownload("unknown archive format: jdk.rar".to_string());
    assert_eq!(
        ensure_jdk("/c", 21, &target, JdkEvent::Unpacked(Err(unpacked.clone()))),
        JdkAction::Done(Err(unpacked))
    );
}
