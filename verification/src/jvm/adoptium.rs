//! The release catalog: which archive to download for a runtime version
//! and platform.

use vstd::prelude::*;
use vstd::string::*;
use crate::config::{arch_name, os_name, Target};
use crate::error::PackError;
use crate::text::{decimal, decimal_digits};

verus! {

/// One release in the catalog's answer.
#[derive(Debug, Clone, PartialEq, Eq)]
pub struct ReleaseAsset {
    pub binary: Binary,
}

/// The binary of a release.
#[derive(Debug, Clone, PartialEq, Eq)]
pub struct Binary {
    pub package: Package,
}

/// The downloadable archive of a release.
#[derive(Debug, Clone, PartialEq, Eq)]
pub struct Package {
    /// Where to download the archive.
    pub link: String,
    /// The SHA-256 digest of the archive, in lowercase hexadecimal.
    pub checksum: String,
    /// The size of the archive in bytes.
    pub size: u64,
    /// The file name of the archive.
    pub name: String,
}

/// What came of asking the catalog.
#[derive(Debug, Clone, PartialEq, Eq)]
pub enum CatalogReply {
    /// The request failed; why.
    RequestFailed(String),
    /// The answer could not be read; why.
    ParseFailed(String),
    /// The releases the catalog lists, in its order.
    Assets(Vec<ReleaseAsset>),
}

/// The catalog query for the latest HotSpot JDK of a version and platform.
pub open spec fn release_url_text(version: u8, target: Target) -> Seq<char> {
    "https://api.adoptium.net/v3/assets/latest/"@ + decimal_digits(version as nat)
        + "/hotspot?architecture="@ + arch_name(target.arch) + "&image_type=jdk&os="@ + os_name(
        target.os,
    ) + "&vendor=eclipse"@
}

/// The message for a catalog that lists no release.
pub open spec fn no_release_text(version: u8, target: Target) -> Seq<char> {
    "no JDK "@ + decimal_digits(version as nat) + " found for "@ + os_name(target.os) + "/"@
        + arch_name(target.arch)
}

/// The catalog query for the latest HotSpot JDK of a version and platform.
pub fn release_url(version: u8, target: &Target) -> (url: String)
    ensures
        url@ == release_url_text(version, *target),
{
    let mut url = String::from_str("https://api.adoptium.net/v3/assets/latest/");
    url.append(decimal(version as u64).as_str());
    url.append("/hotspot?architecture=");
    url.append(target.adoptium_arch());
    url.append("&image_type=jdk&os=");
    url.append(target.adoptium_os());
    url.append("&vendor=eclipse");
    url
}

/// The release to download, from the catalog's reply to the query for a
/// version and platform: the first release listed. A failed request, an
/// unreadable answer and an empty list are errors; no other release is
/// ever put in its place.
pub fn fetch_latest_release(version: u8, target: &Target, reply: CatalogReply) -> (release: Result<
    ReleaseAsset,
    PackError,
>)
    ensures
        match reply {
            CatalogReply::RequestFailed(why) => (release matches Err(PackError::JdkDownload(text))
                && text@ == "API request failed: "@ + why@),
            CatalogReply::ParseFailed(why) => (release matches Err(PackError::JdkDownload(text))
                && text@ == "failed to parse API response: "@ + why@),
            CatalogReply::Assets(assets) => if assets@.len() > 0 {
                release == Ok::<ReleaseAsset, PackError>(assets@[0])
            } else {
                (release matches Err(PackError::JdkDownload(text)) && text@ == no_release_text(
                    version,
                    *target,
                ))
            },
        },
{
    match reply {
        CatalogReply::RequestFailed(why) => Err(
            PackError::JdkDownload(String::from_str("API request failed: ").concat(why.as_str())),
        ),
        CatalogReply::ParseFailed(why) => Err(
            PackError::JdkDownload(
                String::from_str("failed to parse API response: ").concat(why.as_str()),
            ),
        ),
        CatalogReply::Assets(assets) => {
            let mut assets = assets;
            if assets.len() > 0 {
                Ok(assets.remove(0))
            } else {
                let mut text = String::from_str("no JDK ");
                text.append(decimal(version as u64).as_str());
                text.append(" found for ");
                text.append(target.adoptium_os());
                text.append("/");
                text.append(target.adoptium_arch());
                Err(PackError::JdkDownload(text))
            }
        },
    }
}

} // verus!
