use clj_pack::config::{BuildConfig, InputKind, Target, TargetArch, TargetOs};

#[test]
fn override_linux_aarch64_is_accepted() {
    assert_eq!(
        Target::from_str("linux-aarch64"),
        Some(Target {
            os: TargetOs::Linux,
            arch: TargetArch::Aarch64
        })
    );
}

#[test]
fn every_supported_override_is_read() {
    assert_eq!(
        Target::from_str("linux-x64"),
        Some(Target {
            os: TargetOs::Linux,
            arch: TargetArch::X86_64
        })
    );
    assert_eq!(
        Target::from_str("macos-x64"),
        Some(Target {
            os: TargetOs::MacOs,
            arch: TargetArch::X86_64
        })
    );
    assert_eq!(
        Target::from_str("macos-aarch64"),
        Some(Target {
            os: TargetOs::MacOs,
            arch: TargetArch::Aarch64
        })
    );
}

#[test]
fn unknown_override_is_rejected() {
    assert_eq!(Target::from_str("windows-x64"), None);
    assert_eq!(Target::from_str(""), None);
    assert_eq!(Target::from_str("linux-x64 "), None);
    assert_eq!(Target::from_str("Linux-x64"), None);
    assert_eq!(Target::from_str("linux"), None);
    assert_eq!(Target::from_str("mac-aarch64"), None);
}

#[test]
fn current_reads_the_host_names() {
    assert_eq!(
        Target::current("macos", "aarch64"),
        Target {
            os: TargetOs::MacOs,
            arch: TargetArch::Aarch64
        }
    );
    assert_eq!(
        Target::current("linux", "x86_64"),
        Target {
            os: TargetOs::Linux,
            arch: TargetArch::X86_64
        }
    );
    assert_eq!(
        Target::current("freebsd", "riscv64"),
        Target {
            os: TargetOs::Linux,
            arch: TargetArch::X86_64
        }
    );
}

#[test]
fn catalog_names_of_a_target() {
    let linux = Target {
        os: TargetOs::Linux,
        arch: TargetArch::X86_64,
    };
    let mac = Target {
        os: TargetOs::MacOs,
        arch: TargetArch::Aarch64,
    };
    assert_eq!(linux.adoptium_os(), "linux");
    assert_eq!(linux.adoptium_arch(), "x64");
    assert_eq!(mac.adoptium_os(), "mac");
    assert_eq!(mac.adoptium_arch(), "aarch64");
}

#[test]
fn cache_dir_lies_under_the_home_directory() {
    assert_eq!(
        BuildConfig::cache_dir_in("/home/alice"),
        "/home/alice/.clj-pack/cache"
    );
    assert_eq!(BuildConfig::cache_dir_in("/"), "/.clj-pack/cache");
    if let Some(dir) = BuildConfig::cache_dir() {
        assert!(dir.ends_with(".clj-pack/cache"));
    }
}

#[test]
fn input_kind_goes_by_the_extension() {
    assert_eq!(BuildConfig::input_kind(Some("jar")), InputKind::Jar);
    assert_eq!(BuildConfig::input_kind(Some("JAR")), InputKind::Project);
    assert_eq!(BuildConfig::input_kind(Some("edn")), InputKind::Project);
    assert_eq!(BuildConfig::input_kind(None), InputKind::Project);
}

#[test]
fn cache_dir_follows_the_home_directory() {
    assert_eq!(
        BuildConfig::cache_dir_from(Some("/home/alice".to_string())),
        Some("/home/alice/.clj-pack/cache".to_string())
    );
    assert_eq!(BuildConfig::cache_dir_from(None), None);
}
