//! The failures that abort a packaging run.

use vstd::prelude::*;
use vstd::string::*;

verus! {

/// Why a packaging run stopped.
#[derive(Debug, Clone, PartialEq, Eq)]
pub enum PackError {
    /// The project directory holds no recognised build file.
    NoBuildSystem(String),
    /// The build tool could not be run or reported a failure.
    BuildFailed(String),
    /// No application bundle was found under the given directory.
    UberjarNotFound(String),
    /// The release catalog or the archive download failed, or the archive
    /// has an unknown format.
    JdkDownload(String),
    /// The downloaded bytes do not have the digest the release declares.
    ChecksumMismatch { expected: String, actual: String },
    /// The dependency analyzer could not be started.
    JdepsFailed(String),
    /// The runtime linker could not be started or reported a failure.
    JlinkFailed(String),
    /// The payload archive is empty, so nothing could be extracted from it.
    EmptyPayload,
    /// Reading or writing failed.
    Io(String),
    /// A file of the runtime tree cannot go into the payload: its path is
    /// not a clean relative path, or its mode does not fit a tar header.
    BadEntry(String),
}

/// The text shown to the user for `e`.
pub open spec fn message_text(e: PackError) -> Seq<char> {
    match e {
        PackError::NoBuildSystem(dir) => "no build system found in "@ + dir@,
        PackError::BuildFailed(why) => "build failed: "@ + why@,
        PackError::UberjarNotFound(dir) => "no uberjar found in "@ + dir@,
        PackError::JdkDownload(why) => "JDK download failed: "@ + why@,
        PackError::ChecksumMismatch { expected, actual } => "checksum mismatch: expected "@
            + expected@ + ", got "@ + actual@,
        PackError::JdepsFailed(why) => "jdeps failed: "@ + why@,
        PackError::JlinkFailed(why) => "jlink failed: "@ + why@,
        PackError::EmptyPayload => "payload archive is empty"@,
        PackError::Io(why) => "I/O error: "@ + why@,
        PackError::BadEntry(path) => "cannot pack runtime entry: "@ + path@,
    }
}

impl PackError {
    /// The text shown to the user for this error.
    pub fn message(&self) -> (text: String)
        ensures
            text@ == message_text(*self),
    {
        match self {
            PackError::NoBuildSystem(dir) => String::from_str("no build system found in ").concat(
                dir.as_str(),
            ),
            PackError::BuildFailed(why) => String::from_str("build failed: ").concat(why.as_str()),
            PackError::UberjarNotFound(dir) => String::from_str("no uberjar found in ").concat(
                dir.as_str(),
            ),
            PackError::JdkDownload(why) => String::from_str("JDK download failed: ").concat(
                why.as_str(),
            ),
            PackError::ChecksumMismatch { expected, actual } => {
                let mut text = String::from_str("checksum mismatch: expected ");
                text.append(expected.as_str());
                text.append(", got ");
                text.append(actual.as_str());
                text
            },
            PackError::JdepsFailed(why) => String::from_str("jdeps failed: ").concat(why.as_str()),
            PackError::JlinkFailed(why) => String::from_str("jlink failed: ").concat(why.as_str()),
            PackError::EmptyPayload => String::from_str("payload archive is empty"),
            PackError::Io(why) => String::from_str("I/O error: ").concat(why.as_str()),
            PackError::BadEntry(path) => String::from_str("cannot pack runtime entry: ").concat(
                path.as_str(),
            ),
        }
    }
}

} // verus!
