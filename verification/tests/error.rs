use clj_pack::error::PackError;

#[test]
fn every_error_has_its_message() {
    assert_eq!(
        PackError::NoBuildSystem("/p".to_string()).message(),
        "no build system found in /p"
    );
    assert_eq!(
        PackError::BuildFailed("x".to_string()).message(),
        "build failed: x"
    );
    assert_eq!(
        PackError::UberjarNotFound("/p/target".to_string()).message(),
        "no uberjar found in /p/target"
    );
    assert_eq!(
        PackError::JdkDownload("x".to_string()).message(),
        "JDK download failed: x"
    );
    assert_eq!(
        PackError::ChecksumMismatch {
            expected: "aa".to_string(),
            actual: "bb".to_string()
        }
        .message(),
        "checksum mismatch: expected aa, got bb"
    );
    assert_eq!(
        PackError::JdepsFailed("x".to_string()).message(),
        "jdeps failed: x"
    );
    assert_eq!(
        PackError::JlinkFailed("x".to_string()).message(),
        "jlink failed: x"
    );
    assert_eq!(
        PackError::EmptyPayload.message(),
        "payload archive is empty"
    );
    assert_eq!(PackError::Io("x".to_string()).message(), "I/O error: x");
    assert_eq!(
        PackError::BadEntry("../x".to_string()).message(),
        "cannot pack runtime entry: ../x"
    );
}
