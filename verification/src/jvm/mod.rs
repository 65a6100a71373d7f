//! Acquiring a JVM runtime: the release catalog, the download and the cache.

pub mod adoptium;
pub mod cache;
pub mod download;

use vstd::prelude::*;
use vstd::string::*;
use crate::config::Target;
use crate::error::PackError;
use crate::text::path_joined;
use self::adoptium::{release_url, release_url_text, ReleaseAsset};
use self::cache::{cache_key_text, cached_jdk_path};

verus! {

/// What happened while the runtime of a packaging run was being got.
#[derive(Debug, PartialEq, Eq)]
pub enum JdkEvent {
    /// The work begins. `cached` says whether the cache directory of the
    /// runtime exists, which is all that is asked of a cached runtime.
    Started { cached: bool },
    /// The catalog has answered, or could not be asked.
    Asked(Result<ReleaseAsset, PackError>),
    /// The archive of the release has been fetched to the given path, or
    /// could not be.
    Fetched(Result<String, PackError>),
    /// The archive has been unpacked into the cache, at the given path, or
    /// could not be.
    Unpacked(Result<String, PackError>),
}

/// What to do next to get the runtime of a packaging run.
#[derive(Debug, PartialEq, Eq)]
pub enum JdkAction {
    /// Ask the catalog at `url` for the release to download.
    AskCatalog { url: String },
    /// Fetch the archive of `release`.
    Fetch { release: ReleaseAsset },
    /// Unpack the archive at `archive` into the cache.
    Unpack { archive: String },
    /// The work has ended: with the path of the runtime, or with the error
    /// that stopped it.
    Done(Result<String, PackError>),
}

/// Whether an action is the one to take on an event while the runtime for
/// a version and platform is being got: a cached runtime is taken as it
/// is, with nothing asked of the network; else the catalog is asked, the
/// archive fetched and then unpacked, each step on the result of the one
/// before, and the first error ends the work as it is.
pub open spec fn jdk_step(
    cache_dir: Seq<char>,
    version: u8,
    target: Target,
    event: JdkEvent,
    action: JdkAction,
) -> bool {
    match event {
        JdkEvent::Started { cached } => if cached {
            action matches JdkAction::Done(Ok(path)) && path@ == path_joined(
                cache_dir,
                cache_key_text(version, target),
            )
        } else {
            action matches JdkAction::AskCatalog { url } && url@ == release_url_text(
                version,
                target,
            )
        },
        JdkEvent::Asked(Ok(release)) => action == (JdkAction::Fetch { release }),
        JdkEvent::Asked(Err(e)) => action == JdkAction::Done(Err(e)),
        JdkEvent::Fetched(Ok(archive)) => action matches JdkAction::Unpack { archive: a } && a@
            == archive@,
        JdkEvent::Fetched(Err(e)) => action == JdkAction::Done(Err(e)),
        JdkEvent::Unpacked(Ok(path)) => action matches JdkAction::Done(Ok(p)) && p@ == path@,
        JdkEvent::Unpacked(Err(e)) => action == JdkAction::Done(Err(e)),
    }
}

/// The next action to get the runtime for a version and platform.
pub fn ensure_jdk(cache_dir: &str, version: u8, target: &Target, event: JdkEvent) -> (action:
    JdkAction)
    ensures
        jdk_step(cache_dir@, version, *target, event, action),
{
    match event {
        JdkEvent::Started { cached } => {
            if cached {
                JdkAction::Done(Ok(cached_jdk_path(cache_dir, version, target)))
            } else {
                JdkAction::AskCatalog { url: release_url(version, target) }
            }
        },
        JdkEvent::Asked(Ok(release)) => JdkAction::Fetch { release },
        JdkEvent::Asked(Err(e)) => JdkAction::Done(Err(e)),
        JdkEvent::Fetched(Ok(archive)) => JdkAction::Unpack { archive },
        JdkEvent::Fetched(Err(e)) => JdkAction::Done(Err(e)),
        JdkEvent::Unpacked(Ok(path)) => JdkAction::Done(Ok(path)),
        JdkEvent::Unpacked(Err(e)) => JdkAction::Done(Err(e)),
    }
}

} // verus!
