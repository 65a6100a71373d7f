//! Fetching a release archive: what to do at each point of the download,
//! and the check of the archive's digest.

use vstd::prelude::*;
use vstd::string::*;
use crate::digest::{hex_digest, hex_digest_text};
use crate::error::PackError;
use crate::jvm::adoptium::ReleaseAsset;
use crate::text::{join_path, path_joined};

verus! {

/// What happened while an archive was being fetched.
#[derive(Debug, Clone, PartialEq, Eq)]
pub enum FetchEvent {
    /// The fetch begins. `exists` says whether the cache root holds a file
    /// of the archive's name already.
    Started { exists: bool },
    /// The file that was there already has been digested.
    ExistingHashed { digest: String },
    /// The file that was there already has been removed.
    StaleRemoved,
    /// The download has ended; every byte received went into the digest.
    Downloaded { digest: String },
    /// The download broke off, at its start or midway; why.
    DownloadFailed { why: String },
    /// The downloaded file has been moved to the archive's place.
    Installed,
}

/// What to do next while an archive is being fetched.
#[derive(Debug, Clone, PartialEq, Eq)]
pub enum FetchAction {
    /// Digest the file at `path`, which is there already.
    HashExisting { path: String },
    /// Remove the file at `path`: it is not the archive of the release.
    RemoveStale { path: String },
    /// Download `url` to the temporary file `path`, digesting what is
    /// received.
    Download { url: String, path: String },
    /// Move the temporary file `from`, whose digest is the release's, to
    /// the archive's place `to`.
    Install { from: String, to: String },
    /// The archive at `path` is the archive of the release.
    Finish { path: String },
    /// Remove the temporary file at `path`, if there is one, and fail with
    /// `error`: what was downloaded must not stay on disk.
    Reject { path: String, error: PackError },
}

/// Where the archive of a release is kept: under its own file name, in the
/// cache root.
pub open spec fn archive_path_text(release: ReleaseAsset, cache_dir: Seq<char>) -> Seq<char> {
    path_joined(cache_dir, release.binary.package.name@)
}

/// Where the archive of a release is downloaded to: beside its place, under
/// a name of its own, so that nothing stands under the archive's name
/// before its digest has been checked.
pub open spec fn temp_path_text(release: ReleaseAsset, cache_dir: Seq<char>) -> Seq<char> {
    archive_path_text(release, cache_dir) + ".part"@
}

/// Whether an action is the one to take on an event of the fetch of
/// `release` into `cache_dir`.
pub open spec fn fetch_step(
    release: ReleaseAsset,
    cache_dir: Seq<char>,
    event: FetchEvent,
    action: FetchAction,
) -> bool {
    let dest = archive_path_text(release, cache_dir);
    let temp = temp_path_text(release, cache_dir);
    let expected = release.binary.package.checksum@;
    match event {
        FetchEvent::Started { exists } => if exists {
            action matches FetchAction::HashExisting { path } && path@ == dest
        } else {
            action matches FetchAction::Download { url, path } && url@
                == release.binary.package.link@ && path@ == temp
        },
        FetchEvent::ExistingHashed { digest } => if digest@ == expected {
            action matches FetchAction::Finish { path } && path@ == dest
        } else {
            action matches FetchAction::RemoveStale { path } && path@ == dest
        },
        FetchEvent::StaleRemoved => action matches FetchAction::Download { url, path } && url@
            == release.binary.package.link@ && path@ == temp,
        FetchEvent::Downloaded { digest } => if digest@ == expected {
            action matches FetchAction::Install { from, to } && from@ == temp && to@ == dest
        } else {
            action matches FetchAction::Reject {
                path,
                error: PackError::ChecksumMismatch { expected: e, actual: a },
            } && path@ == temp && e@ == expected && a@ == digest@
        },
        FetchEvent::DownloadFailed { why } => action matches FetchAction::Reject {
            path,
            error: PackError::JdkDownload(text),
        } && path@ == temp && text@ == "download failed: "@ + why@,
        FetchEvent::Installed => action matches FetchAction::Finish { path } && path@ == dest,
    }
}

/// Where the archive of a release is kept.
pub fn archive_path(release: &ReleaseAsset, cache_dir: &str) -> (path: String)
    ensures
        path@ == archive_path_text(*release, cache_dir@),
{
    join_path(cache_dir, release.binary.package.name.as_str())
}

/// Where the archive of a release is downloaded to.
pub fn temp_path(release: &ReleaseAsset, cache_dir: &str) -> (path: String)
    ensures
        path@ == temp_path_text(*release, cache_dir@),
{
    archive_path(release, cache_dir).concat(".part")
}

/// The next action of the fetch of `release` into `cache_dir`. A file that
/// is there already is taken where its digest is the release's, and removed
/// and downloaded anew where it is not. The download goes to a temporary
/// file, which is moved to the archive's place only once its digest is the
/// release's. A download that broke off, or whose digest is not the
/// release's, is removed and refused; nothing is tried again.
pub fn download_jdk(release: &ReleaseAsset, cache_dir: &str, event: FetchEvent) -> (action:
    FetchAction)
    ensures
        fetch_step(*release, cache_dir@, event, action),
{
    let path = archive_path(release, cache_dir);
    match event {
        FetchEvent::Started { exists } => {
            if exists {
                FetchAction::HashExisting { path }
            } else {
                FetchAction::Download {
                    url: release.binary.package.link.clone(),
                    path: temp_path(release, cache_dir),
                }
            }
        },
        FetchEvent::ExistingHashed { digest } => {
            if digest == release.binary.package.checksum {
                FetchAction::Finish { path }
            } else {
                FetchAction::RemoveStale { path }
            }
        },
        FetchEvent::StaleRemoved => FetchAction::Download {
            url: release.binary.package.link.clone(),
            path: temp_path(release, cache_dir),
        },
        FetchEvent::Downloaded { digest } => {
            if digest == release.binary.package.checksum {
                FetchAction::Install { from: temp_path(release, cache_dir), to: path }
            } else {
                FetchAction::Reject {
                    path: temp_path(release, cache_dir),
                    error: PackError::ChecksumMismatch {
                        expected: release.binary.package.checksum.clone(),
                        actual: digest,
                    },
                }
            }
        },
        FetchEvent::DownloadFailed { why } => FetchAction::Reject {
            path: temp_path(release, cache_dir),
            error: PackError::JdkDownload(
                String::from_str("download failed: ").concat(why.as_str()),
            ),
        },
        FetchEvent::Installed => FetchAction::Finish { path },
    }
}

/// A file stands under the archive's name only once its digest is known to
/// be the release's: every download goes to the temporary file, which is
/// not the archive's place, and is moved there only after a digest that
/// matches.
pub proof fn lemma_archive_place_is_verified(
    release: ReleaseAsset,
    cache_dir: Seq<char>,
    event: FetchEvent,
    action: FetchAction,
)
    requires
        fetch_step(release, cache_dir, event, action),
    ensures
        temp_path_text(release, cache_dir) != archive_path_text(release, cache_dir),
        action matches FetchAction::Download { url, path } ==> path@ != archive_path_text(
            release,
            cache_dir,
        ),
        action is Install ==> (event matches FetchEvent::Downloaded { digest } && digest@
            == release.binary.package.checksum@),
        action is Reject ==> !(event is Installed),
{
    reveal_strlit(".part");
    assert(".part"@.len() == 5);
    assert(temp_path_text(release, cache_dir).len() == archive_path_text(release, cache_dir).len()
        + 5);
}

/// The total to show progress against: the length the server declares,
/// else the size the release declares.
pub fn progress_total(release: &ReleaseAsset, content_length: Option<u64>) -> (total: u64)
    ensures
        total == match content_length {
            Some(length) => length,
            None => release.binary.package.size,
        },
{
    match content_length {
        Some(length) => length,
        None => release.binary.package.size,
    }
}

/// Whether the SHA-256 digest of `data`, in lowercase hexadecimal, is
/// `expected`.
pub fn verify_checksum(data: &[u8], expected: &str) -> (matches: bool)
    ensures
        matches == (hex_digest_text(data@) == expected@),
{
    let actual = hex_digest(data);
    crate::text::str_eq(actual.as_str(), expected)
}

} // verus!
