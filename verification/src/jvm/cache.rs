//! The runtime cache: where the runtime for a version and platform is kept,
//! how a downloaded archive is unpacked into it, and where the tools of a
//! runtime are found.

use vstd::prelude::*;
use vstd::string::*;
use crate::config::{arch_label, os_label, Target};
use crate::error::PackError;
use crate::text::{
    decimal, decimal_digits, ends_with, has_suffix, is_digit, join_path,
    lemma_decimal_digits_injective, lemma_decimal_digits_shape, path_joined,
};

verus! {

/// The name of the cache directory for a runtime version and platform:
/// `runtime-`, the version in decimal, and the names of the operating
/// system and the architecture, with hyphens between them.
pub open spec fn cache_key_text(version: u8, target: Target) -> Seq<char> {
    "runtime-"@ + decimal_digits(version as nat) + "-"@ + os_label(target.os) + "-"@ + arch_label(
        target.arch,
    )
}

/// The name of the cache directory for a runtime version and platform.
pub fn cache_key(version: u8, target: &Target) -> (key: String)
    ensures
        key@ == cache_key_text(version, *target),
{
    let mut key = String::from_str("runtime-");
    key.append(decimal(version as u64).as_str());
    key.append("-");
    key.append(target.os_label());
    key.append("-");
    key.append(target.arch_label());
    key
}

/// The directory, under the cache root, of the runtime for a version and
/// platform.
pub fn cached_jdk_path(cache_dir: &str, version: u8, target: &Target) -> (path: String)
    ensures
        path@ == path_joined(cache_dir@, cache_key_text(version, *target)),
{
    let key = cache_key(version, target);
    join_path(cache_dir, key.as_str())
}

/// Where a tool lies in a runtime tree laid out as a macOS bundle.
pub open spec fn bundle_tool_path(jdk: Seq<char>, tool: Seq<char>) -> Seq<char> {
    path_joined(
        path_joined(path_joined(path_joined(jdk, "Contents"@), "Home"@), "bin"@),
        tool,
    )
}

/// Where a tool lies in a runtime tree laid out flat.
pub open spec fn flat_tool_path(jdk: Seq<char>, tool: Seq<char>) -> Seq<char> {
    path_joined(path_joined(jdk, "bin"@), tool)
}

/// Where a tool lies in a runtime tree laid out as a macOS bundle. This is
/// the path to probe before the flat layout is assumed.
pub fn macos_jdk_bin(jdk_path: &str, tool: &str) -> (path: String)
    ensures
        path@ == bundle_tool_path(jdk_path@, tool@),
{
    let contents = join_path(jdk_path, "Contents");
    let home = join_path(contents.as_str(), "Home");
    let bin = join_path(home.as_str(), "bin");
    join_path(bin.as_str(), tool)
}

/// The path of a tool of the runtime at `jdk_path`: in the bundle layout
/// where the tool exists there (`bundle_tool_exists`), else in the flat one.
pub fn jdk_bin(jdk_path: &str, tool: &str, bundle_tool_exists: bool) -> (path: String)
    ensures
        path@ == if bundle_tool_exists {
            bundle_tool_path(jdk_path@, tool@)
        } else {
            flat_tool_path(jdk_path@, tool@)
        },
{
    if bundle_tool_exists {
        return macos_jdk_bin(jdk_path, tool);
    }
    let bin = join_path(jdk_path, "bin");
    join_path(bin.as_str(), tool)
}

/// The formats a runtime archive comes in.
#[derive(Debug, Clone, Copy, PartialEq, Eq, Structural)]
pub enum ArchiveFormat {
    /// A gzip-compressed tar stream.
    TarGz,
    /// A zip file.
    Zip,
}

/// The format that a file name announces by its ending, if any.
pub open spec fn format_of(file_name: Seq<char>) -> Option<ArchiveFormat> {
    if has_suffix(file_name, ".tar.gz"@) || has_suffix(file_name, ".tgz"@) {
        Some(ArchiveFormat::TarGz)
    } else if has_suffix(file_name, ".zip"@) {
        Some(ArchiveFormat::Zip)
    } else {
        None
    }
}

/// The format that a file name announces by its ending, if any.
pub fn archive_format(file_name: &str) -> (format: Option<ArchiveFormat>)
    ensures
        format == format_of(file_name@),
{
    if ends_with(file_name, ".tar.gz") || ends_with(file_name, ".tgz") {
        Some(ArchiveFormat::TarGz)
    } else if ends_with(file_name, ".zip") {
        Some(ArchiveFormat::Zip)
    } else {
        None
    }
}

/// The cache key tells the version and the platform apart: two keys are the
/// same only where both the versions and the platforms are.
pub proof fn lemma_cache_key_injective(v1: u8, t1: Target, v2: u8, t2: Target)
    requires
        cache_key_text(v1, t1) == cache_key_text(v2, t2),
    ensures
        v1 == v2,
        t1 == t2,
{
    reveal_strlit("runtime-");
    reveal_strlit("-");
    reveal_strlit("linux");
    reveal_strlit("macos");
    reveal_strlit("x86_64");
    reveal_strlit("aarch64");
    let d1 = decimal_digits(v1 as nat);
    let d2 = decimal_digits(v2 as nat);
    let k1 = cache_key_text(v1, t1);
    let k2 = cache_key_text(v2, t2);
    lemma_decimal_digits_shape(v1 as nat);
    lemma_decimal_digits_shape(v2 as nat);
    let n1 = d1.len() as int;
    let n2 = d2.len() as int;
    assert forall|i: int| 0 <= i < n1 implies k1[8 + i] == d1[i] by {}
    assert forall|i: int| 0 <= i < n2 implies k2[8 + i] == d2[i] by {}
    assert(k1[8 + n1] == '-');
    assert(k2[8 + n2] == '-');
    if n1 < n2 {
        assert(k2[8 + n1] == d2[n1]);
        assert(is_digit(d2[n1]));
    }
    if n2 < n1 {
        assert(k1[8 + n2] == d1[n2]);
        assert(is_digit(d1[n2]));
    }
    assert(n1 == n2);
    assert(d1 =~= d2) by {
        assert forall|i: int| 0 <= i < n1 implies d1[i] == d2[i] by {
            assert(k1[8 + i] == d1[i]);
            assert(k2[8 + i] == d2[i]);
        }
    }
    lemma_decimal_digits_injective(v1 as nat, v2 as nat);
    let o1 = os_label(t1.os);
    let o2 = os_label(t2.os);
    assert(k1[9 + n1] == o1[0]);
    assert(k2[9 + n1] == o2[0]);
    assert(t1.os == t2.os);
    let a1 = arch_label(t1.arch);
    let a2 = arch_label(t2.arch);
    assert(k1[10 + n1 + o1.len()] == a1[0]);
    assert(k2[10 + n1 + o2.len()] == a2[0]);
    assert(t1.arch == t2.arch);
}

/// What stands under a name in a directory.
#[derive(Debug, PartialEq, Eq)]
pub enum Node {
    /// A file, or anything else that is no directory.
    File,
    /// A directory with its entries.
    Dir(Vec<Entry>),
}

/// One entry of a directory.
#[derive(Debug, PartialEq, Eq)]
pub struct Entry {
    pub name: String,
    pub node: Node,
}

/// Whether a directory holds one entry only, and that entry is a directory.
pub open spec fn lone_dir(root: Seq<Entry>) -> bool {
    root.len() == 1 && root[0].node is Dir
}

/// The entries of a directory after flattening: where the directory holds
/// one lone subdirectory, the entries of that subdirectory take its place;
/// any other directory stays as it is.
pub open spec fn flattened(root: Seq<Entry>) -> Seq<Entry> {
    if lone_dir(root) {
        root[0].node->Dir_0@
    } else {
        root
    }
}

/// Whether the entries of a directory call for flattening.
pub fn has_lone_dir(root: &[Entry]) -> (lone: bool)
    ensures
        lone == lone_dir(root@),
{
    if root.len() != 1 {
        return false;
    }
    match &root[0].node {
        Node::Dir(_) => true,
        Node::File => false,
    }
}

/// Flattens the entries of an unpacked archive: vendor archives wrap the
/// runtime in one directory named after the version, which is removed so
/// that every cached runtime has the same layout.
pub fn flatten_single_subdir(root: Vec<Entry>) -> (flat: Vec<Entry>)
    ensures
        flat@ == flattened(root@),
{
    if !has_lone_dir(root.as_slice()) {
        return root;
    }
    let mut root = root;
    match root.pop() {
        Some(Entry { name: _, node: Node::Dir(children) }) => children,
        _ => root,
    }
}

/// Flattening leaves alone a directory with several entries, with none, or
/// with one entry that is a file.
pub proof fn lemma_flatten_keeps_other_roots(root: Seq<Entry>)
    requires
        root.len() != 1 || root[0].node is File,
    ensures
        flattened(root) == root,
{
}

/// Flattening twice gives what flattening once gives, wherever the wrapper
/// directory does not itself hold one lone directory.
pub proof fn lemma_flatten_idempotent(root: Seq<Entry>)
    requires
        lone_dir(root) ==> !lone_dir(root[0].node->Dir_0@),
    ensures
        flattened(flattened(root)) == flattened(root),
{
}

/// How to put a downloaded archive into the cache.
#[derive(Debug, Clone, PartialEq, Eq)]
pub struct ExtractPlan {
    /// The cache directory to unpack into.
    pub dest: String,
    /// Whether a directory is there already and has to be removed first.
    pub remove_stale: bool,
    /// How to unpack the archive.
    pub format: ArchiveFormat,
}

/// Plans the caching of a downloaded archive for a version and platform.
/// `archive_name` is the file name of the archive, `None` where its path
/// has none; `dest_exists` says whether the cache directory is there
/// already. An archive without a file name or of an unknown format is
/// refused.
pub fn extract_and_cache(
    cache_dir: &str,
    version: u8,
    target: &Target,
    archive_name: Option<&str>,
    dest_exists: bool,
) -> (plan: Result<ExtractPlan, PackError>)
    ensures
        match archive_name {
            None => (plan matches Err(PackError::JdkDownload(why)) && why@
                == "invalid archive path"@),
            Some(name) => match format_of(name@) {
                None => (plan matches Err(PackError::JdkDownload(why)) && why@
                    == "unknown archive format: "@ + name@),
                Some(format) => (plan matches Ok(p) && p.dest@ == path_joined(
                    cache_dir@,
                    cache_key_text(version, *target),
                ) && p.remove_stale == dest_exists && p.format == format),
            },
        },
{
    let name = match archive_name {
        Some(name) => name,
        None => {
            return Err(PackError::JdkDownload(String::from_str("invalid archive path")));
        },
    };
    match archive_format(name) {
        Some(format) => Ok(
            ExtractPlan {
                dest: cached_jdk_path(cache_dir, version, target),
                remove_stale: dest_exists,
                format,
            },
        ),
        None => Err(
            PackError::JdkDownload(String::from_str("unknown archive format: ").concat(name)),
        ),
    }
}

} // verus!
