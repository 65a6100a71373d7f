//! The payload archive: what goes into it, and its fingerprint.

use vstd::prelude::*;
use vstd::string::*;
use crate::digest::{fingerprint_text, hex_digest, is_hex_char};
use crate::error::PackError;
use crate::text::{
    clean_path, is_clean_path, is_component, lemma_clean_below, lemma_clean_single, views,
};

verus! {

/// The fingerprint of a payload: the first 16 characters of the SHA-256
/// digest of its bytes in lowercase hexadecimal. It names the directory the
/// payload is unpacked into, so equal payloads share one.
pub fn hash_file(data: &[u8]) -> (fingerprint: String)
    ensures
        fingerprint@ == fingerprint_text(data@),
        fingerprint@.len() == 16,
        forall|i: int| 0 <= i < 16 ==> is_hex_char(#[trigger] fingerprint@[i]),
{
    let full = hex_digest(data);
    String::from_str(full.as_str().substring_char(0, 16))
}

/// A gzip-compressed tar archive under construction in memory.
#[verifier::external_body]
pub struct TarGz {
    inner: tar::Builder<flate2::write::GzEncoder<Vec<u8>>>,
}

/// The type flag of a regular file in a tar header.
pub const FILE_KIND: u8 = 48;

/// The type flag of a directory in a tar header.
pub const DIR_KIND: u8 = 53;

/// The largest mode that a tar header holds: seven octal digits.
pub const MAX_MODE: u32 = 0o7777777;

/// The members of an archive under construction, in order, as a reader of
/// the finished archive lists them: for each its name, the type flag of its
/// header, its bytes and its mode.
pub uninterp spec fn appended(archive: TarGz) -> Seq<(Seq<char>, u8, Seq<u8>, u32)>;

/// The bytes of the gzip-compressed tar stream of the given members.
pub uninterp spec fn tar_gz_bytes(members: Seq<(Seq<char>, u8, Seq<u8>, u32)>) -> Seq<u8>;

/// Whether a member is one that the archive stores as it is given: a clean
/// relative name, a regular file or a directory without bytes, and a mode
/// that fits the header.
pub open spec fn storable(name: Seq<char>, kind: u8, data: Seq<u8>, mode: u32) -> bool {
    &&& clean_path(name)
    &&& (kind == FILE_KIND || (kind == DIR_KIND && data.len() == 0))
    &&& mode <= MAX_MODE
}

/// `tar::Builder::new` over `flate2::write::GzEncoder::new` at the default
/// compression level, writing to memory: an archive without members.
#[verifier::external_body]
fn archive_new() -> (archive: TarGz)
    ensures
        appended(archive) == Seq::<(Seq<char>, u8, Seq<u8>, u32)>::empty(),
{
    let encoder = flate2::write::GzEncoder::new(Vec::new(), flate2::Compression::default());
    TarGz { inner: tar::Builder::new(encoder) }
}

/// `tar::Builder::append_data` with a GNU header of the given type flag and
/// mode, sized for the given bytes. The claim is made of storable members
/// only. For those the call succeeds: the name passes the header's checks
/// (a longer one goes into a long-name record), and the archive is written
/// to memory, where no write fails. The member is then the archive's next,
/// with the name, type flag, bytes and mode as given. Of any other member
/// nothing is claimed: the header drops `.` and empty components from a
/// name, keeps seven octal digits of a mode, and stores type flag 0 as 48.
/// The error's text is handed on.
#[verifier::external_body]
fn archive_append(archive: &mut TarGz, name: &str, kind: u8, data: &[u8], mode: u32) -> (done:
    Result<(), String>)
    ensures
        storable(name@, kind, data@, mode) ==> done is Ok && appended(*final(archive)) == appended(
            *old(archive),
        ).push((name@, kind, data@, mode)),
{
    let mut header = tar::Header::new_gnu();
    header.set_entry_type(tar::EntryType::new(kind));
    header.set_size(data.len() as u64);
    header.set_mode(mode);
    match archive.inner.append_data(&mut header, name, data) {
        Ok(()) => Ok(()),
        Err(e) => Err(e.to_string()),
    }
}

/// `tar::Builder::into_inner`, then `flate2::write::GzEncoder::finish`:
/// the compressed stream of the members appended. Both write to memory
/// only, so both succeed; and the stream is not empty, since it begins
/// with the gzip header. The error's text is handed on.
#[verifier::external_body]
fn archive_finish(archive: TarGz) -> (bytes: Result<Vec<u8>, String>)
    ensures
        bytes is Ok,
        bytes->Ok_0@ == tar_gz_bytes(appended(archive)),
        bytes->Ok_0@.len() > 0,
{
    match archive.inner.into_inner() {
        Ok(encoder) => match encoder.finish() {
            Ok(bytes) => Ok(bytes),
            Err(e) => Err(e.to_string()),
        },
        Err(e) => Err(e.to_string()),
    }
}

/// One file or directory of a runtime tree.
#[derive(Debug, Clone, PartialEq, Eq)]
pub struct RuntimeFile {
    /// Its path below the root of the tree.
    pub path: String,
    /// Whether it is a directory.
    pub dir: bool,
    /// The bytes of a file; a directory has none.
    pub data: Vec<u8>,
    /// Its permission bits.
    pub mode: u32,
}

/// The name of the runtime tree in the payload.
pub open spec fn runtime_root() -> Seq<char> {
    "runtime"@
}

/// The name of the application bundle in the payload.
pub open spec fn jar_name() -> Seq<char> {
    "app.jar"@
}

/// The permission bits of the runtime's root directory in the payload.
pub open spec fn root_mode() -> u32 {
    0o755
}

/// The permission bits of the application bundle in the payload.
pub open spec fn jar_mode() -> u32 {
    0o644
}

/// The name in the payload of what has the given path in the runtime tree:
/// the path, below the runtime's root.
pub open spec fn runtime_name(path: Seq<char>) -> Seq<char> {
    runtime_root() + seq!['/'] + path
}

/// Whether a file or directory of the runtime tree can go into the
/// payload: its path is a clean relative path, so that it stays below the
/// runtime's root, and its mode fits a tar header.
pub open spec fn packable(file: RuntimeFile) -> bool {
    clean_path(file.path@) && file.mode <= MAX_MODE
}

/// Whether every file and directory of a runtime tree can go into the
/// payload.
pub open spec fn all_packable(runtime: Seq<RuntimeFile>) -> bool {
    forall|i: int| 0 <= i < runtime.len() ==> packable(#[trigger] runtime[i])
}

/// Whether `at` is the first entry of a runtime tree that cannot go into
/// the payload.
pub open spec fn first_unpackable(runtime: Seq<RuntimeFile>, at: int) -> bool {
    &&& 0 <= at < runtime.len()
    &&& !packable(runtime[at])
    &&& forall|k: int| 0 <= k < at ==> packable(#[trigger] runtime[k])
}

/// The member that a file or directory of the runtime tree becomes.
pub open spec fn runtime_member(file: RuntimeFile) -> (Seq<char>, u8, Seq<u8>, u32) {
    (
        runtime_name(file.path@),
        if file.dir {
            DIR_KIND
        } else {
            FILE_KIND
        },
        if file.dir {
            Seq::<u8>::empty()
        } else {
            file.data@
        },
        file.mode,
    )
}

/// The members of the payload of a runtime tree and an application bundle:
/// the root directory of the runtime, then the tree below it in the order
/// given, then the bundle.
pub open spec fn payload_members(runtime: Seq<RuntimeFile>, jar: Seq<u8>) -> Seq<
    (Seq<char>, u8, Seq<u8>, u32),
> {
    seq![(runtime_root(), DIR_KIND, Seq::<u8>::empty(), root_mode())] + Seq::new(
        runtime.len(),
        |i: int| runtime_member(runtime[i]),
    ) + seq![(jar_name(), FILE_KIND, jar, jar_mode())]
}

/// The names of the members of a payload, in order.
pub open spec fn payload_names(runtime: Seq<RuntimeFile>) -> Seq<Seq<char>> {
    seq![runtime_root()] + Seq::new(runtime.len(), |i: int| runtime_name(runtime[i].path@)) + seq![
        jar_name(),
    ]
}

/// The names of the runtime's root and of the bundle are clean paths of
/// one component.
pub proof fn lemma_fixed_names_clean()
    ensures
        clean_path(runtime_root()),
        is_component(runtime_root(), 0, runtime_root().len() as int),
        clean_path(jar_name()),
        is_component(jar_name(), 0, jar_name().len() as int),
        runtime_root() != jar_name(),
{
    reveal_strlit("runtime");
    reveal_strlit("app.jar");
    assert(runtime_root().len() == 7);
    assert(jar_name().len() == 7);
    assert(seq!['.'].len() == 1 && seq!['.', '.'].len() == 2);
    lemma_clean_single(runtime_root());
    lemma_clean_single(jar_name());
    assert(runtime_root()[0] != jar_name()[0]);
}

/// The name in the payload of a clean path of the runtime tree is a clean
/// path whose first component is the runtime's root.
pub proof fn lemma_runtime_name_clean(path: Seq<char>)
    requires
        clean_path(path),
    ensures
        clean_path(runtime_name(path)),
        is_component(runtime_name(path), 0, runtime_root().len() as int),
        runtime_name(path).subrange(0, runtime_root().len() as int) == runtime_root(),
        runtime_name(path) != jar_name(),
{
    lemma_fixed_names_clean();
    lemma_clean_below(runtime_root(), path);
    assert(runtime_name(path).subrange(0, runtime_root().len() as int) =~= runtime_root());
    reveal_strlit("runtime");
    reveal_strlit("app.jar");
    assert(runtime_name(path)[0] != jar_name()[0]);
}

/// The name of what has the given path in the runtime tree.
fn member_name(path: &str) -> (name: String)
    ensures
        name@ == runtime_name(path@),
{
    proof {
        reveal_strlit("/");
    }
    let mut name = String::from_str("runtime");
    name.append("/");
    name.append(path);
    assert(name@ =~= runtime_root() + seq!['/'] + path@);
    name
}

/// The names of the members of the payload of a runtime tree, in order.
/// The application bundle goes by one fixed name, whatever its file is
/// called.
pub fn archive_names(runtime: &[RuntimeFile]) -> (names: Vec<String>)
    ensures
        views(names@) == payload_names(runtime@),
{
    let mut names: Vec<String> = Vec::new();
    names.push(String::from_str("runtime"));
    let n: usize = runtime.len();
    let mut i: usize = 0;
    while i < n
        invariant
            n == runtime@.len(),
            i <= n,
            views(names@) == seq![runtime_root()] + Seq::new(
                i as nat,
                |k: int| runtime_name(runtime@[k].path@),
            ),
        decreases n - i,
    {
        let ghost before = views(names@);
        names.push(member_name(runtime[i].path.as_str()));
        assert(views(names@) =~= before.push(runtime_name(runtime@[i as int].path@)));
        assert(views(names@) =~= seq![runtime_root()] + Seq::new(
            (i + 1) as nat,
            |k: int| runtime_name(runtime@[k].path@),
        ));
        i = i + 1;
    }
    let ghost before = views(names@);
    names.push(String::from_str("app.jar"));
    assert(views(names@) =~= before.push(jar_name()));
    assert(views(names@) =~= payload_names(runtime@));
    names
}

/// The payload of a runtime tree and an application bundle: one
/// gzip-compressed tar stream that holds the tree under `runtime/` and the
/// bundle as `app.jar`. Packing succeeds exactly where every entry of the
/// tree has a clean relative path and a mode that fits a tar header; else
/// the first entry that has not is refused, by its path, and nothing is
/// packed.
pub fn create_payload(runtime: &[RuntimeFile], jar: &[u8]) -> (payload: Result<Vec<u8>, PackError>)
    ensures
        match payload {
            Ok(bytes) => all_packable(runtime@) && bytes@ == tar_gz_bytes(
                payload_members(runtime@, jar@),
            ) && bytes@.len() > 0,
            Err(e) => exists|at: int| #[trigger]
                first_unpackable(runtime@, at) && (e matches PackError::BadEntry(path) && path@
                    == runtime@[at].path@),
        },
{
    let n: usize = runtime.len();
    let mut checked: usize = 0;
    while checked < n
        invariant
            n == runtime@.len(),
            checked <= n,
            forall|k: int| 0 <= k < checked ==> packable(#[trigger] runtime@[k]),
        decreases n - checked,
    {
        let file = &runtime[checked];
        if file.mode > MAX_MODE || !is_clean_path(file.path.as_str()) {
            assert(first_unpackable(runtime@, checked as int));
            return Err(PackError::BadEntry(file.path.clone()));
        }
        checked = checked + 1;
    }
    proof {
        lemma_fixed_names_clean();
    }
    let nothing: Vec<u8> = Vec::new();
    let mut archive = archive_new();
    match archive_append(&mut archive, "runtime", DIR_KIND, nothing.as_slice(), 0o755) {
        Ok(()) => {},
        Err(why) => {
            return Err(PackError::Io(why));
        },
    }
    let mut i: usize = 0;
    while i < n
        invariant
            n == runtime@.len(),
            i <= n,
            all_packable(runtime@),
            nothing@ == Seq::<u8>::empty(),
            appended(archive) == seq![(runtime_root(), DIR_KIND, Seq::<u8>::empty(), root_mode())]
                + Seq::new(i as nat, |k: int| runtime_member(runtime@[k])),
        decreases n - i,
    {
        let file = &runtime[i];
        let name = member_name(file.path.as_str());
        let ghost before = appended(archive);
        proof {
            assert(packable(runtime@[i as int]));
            lemma_runtime_name_clean(file.path@);
        }
        let done = if file.dir {
            archive_append(&mut archive, name.as_str(), DIR_KIND, nothing.as_slice(), file.mode)
        } else {
            archive_append(
                &mut archive,
                name.as_str(),
                FILE_KIND,
                file.data.as_slice(),
                file.mode,
            )
        };
        match done {
            Ok(()) => {},
            Err(why) => {
                return Err(PackError::Io(why));
            },
        }
        assert(appended(archive) == before.push(runtime_member(runtime@[i as int])));
        assert(appended(archive) =~= seq![
            (runtime_root(), DIR_KIND, Seq::<u8>::empty(), root_mode()),
        ] + Seq::new((i + 1) as nat, |k: int| runtime_member(runtime@[k])));
        i = i + 1;
    }
    match archive_append(&mut archive, "app.jar", FILE_KIND, jar, 0o644) {
        Ok(()) => {},
        Err(why) => {
            return Err(PackError::Io(why));
        },
    }
    assert(appended(archive) =~= payload_members(runtime@, jar@));
    match archive_finish(archive) {
        Ok(bytes) => Ok(bytes),
        Err(why) => Err(PackError::Io(why)),
    }
}

/// A payload has two things at its top: the runtime tree and the
/// application bundle. Its first member is the directory `runtime`, its
/// last the file `app.jar` with the bundle's bytes. Where the tree can be
/// packed, the name of every member between them is a clean path whose
/// first component is `runtime`: it lies below that directory and nowhere
/// else, and it is not the bundle's name.
pub proof fn lemma_payload_layout(runtime: Seq<RuntimeFile>, jar: Seq<u8>)
    requires
        all_packable(runtime),
    ensures
        payload_members(runtime, jar).len() == runtime.len() + 2,
        payload_members(runtime, jar)[0] == (
            runtime_root(),
            DIR_KIND,
            Seq::<u8>::empty(),
            root_mode(),
        ),
        payload_members(runtime, jar).last() == (jar_name(), FILE_KIND, jar, jar_mode()),
        runtime_root() != jar_name(),
        forall|i: int|
            1 <= i <= runtime.len() ==> {
                let name = (#[trigger] payload_members(runtime, jar)[i]).0;
                &&& clean_path(name)
                &&& is_component(name, 0, runtime_root().len() as int)
                &&& name.subrange(0, runtime_root().len() as int) == runtime_root()
                &&& name != jar_name()
            },
{
    lemma_fixed_names_clean();
    let members = payload_members(runtime, jar);
    assert forall|i: int| 1 <= i <= runtime.len() implies {
        let name = (#[trigger] members[i]).0;
        &&& clean_path(name)
        &&& is_component(name, 0, runtime_root().len() as int)
        &&& name.subrange(0, runtime_root().len() as int) == runtime_root()
        &&& name != jar_name()
    } by {
        assert(packable(runtime[i - 1]));
        assert(members[i].0 == runtime_name(runtime[i - 1].path@));
        lemma_runtime_name_clean(runtime[i - 1].path@);
    }
}

} // verus!
