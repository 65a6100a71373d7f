//! The launcher preamble: a shell script that, placed in front of the payload
//! archive, unpacks the archive on first run and starts the application.

use vstd::prelude::*;
use vstd::string::*;
use crate::text::{
    decimal, decimal_digits, decimal_value, join, joined, leading_digits,
    lemma_decimal_digits_shape, lemma_decimal_value_of_digits, lemma_leading_digits, views,
};

verus! {

/// The script up to the cache identifier.
pub open spec fn stub_head() -> Seq<char> {
    "#!/bin/sh\nset -e\nCACHE_ID=\""@
}

/// The script between the cache identifier and the payload size.
pub open spec fn stub_cache() -> Seq<char> {
    "\"\nCACHE_DIR=\"${HOME}/.clj-pack/cache/${CACHE_ID}\"\nPAYLOAD_SIZE="@
}

/// The script between the payload size and the runtime arguments: on first
/// run it unpacks the last `PAYLOAD_SIZE` bytes of the file into the cache.
pub open spec fn stub_extract() -> Seq<char> {
    "\n\nif [ ! -d \"$CACHE_DIR/runtime\" ]; then\n    mkdir -p \"$CACHE_DIR\"\n    echo \"Extracting runtime (first run)...\" >&2\n    tail -c \"$PAYLOAD_SIZE\" \"$0\" | tar xzf - -C \"$CACHE_DIR\"\nfi\n\nexec \"$CACHE_DIR/runtime/bin/java\""@
}

/// The script after the runtime arguments, ending with the payload marker.
pub open spec fn stub_tail() -> Seq<char> {
    " -jar \"$CACHE_DIR/app.jar\" \"$@\"\nexit 0\n# --- PAYLOAD BELOW ---\n"@
}

/// The runtime arguments as they stand in the script: nothing where there
/// are none, else a space and the arguments with single spaces between them.
pub open spec fn jvm_args_text(args: Seq<Seq<char>>) -> Seq<char> {
    if args.len() == 0 {
        Seq::empty()
    } else {
        " "@ + joined(args, " "@)
    }
}

/// The whole launcher script for a payload with the given fingerprint and
/// size, started with the given runtime arguments.
pub open spec fn stub_text(hash: Seq<char>, size: nat, args: Seq<Seq<char>>) -> Seq<char> {
    stub_head() + hash + stub_cache() + decimal_digits(size) + stub_extract() + jvm_args_text(args)
        + stub_tail()
}

/// Renders the launcher script. The fingerprint, the size and the runtime
/// arguments are embedded as given.
pub fn generate(payload_hash: &str, payload_size: u64, jvm_args: &[String]) -> (script: String)
    ensures
        script@ == stub_text(payload_hash@, payload_size as nat, views(jvm_args@)),
{
    let mut script = String::from_str("#!/bin/sh\nset -e\nCACHE_ID=\"");
    script.append(payload_hash);
    script.append("\"\nCACHE_DIR=\"${HOME}/.clj-pack/cache/${CACHE_ID}\"\nPAYLOAD_SIZE=");
    script.append(decimal(payload_size).as_str());
    script.append(
        "\n\nif [ ! -d \"$CACHE_DIR/runtime\" ]; then\n    mkdir -p \"$CACHE_DIR\"\n    echo \"Extracting runtime (first run)...\" >&2\n    tail -c \"$PAYLOAD_SIZE\" \"$0\" | tar xzf - -C \"$CACHE_DIR\"\nfi\n\nexec \"$CACHE_DIR/runtime/bin/java\"",
    );
    if jvm_args.len() > 0 {
        script.append(" ");
        script.append(join(jvm_args, " ").as_str());
    }
    assert(views(jvm_args@).len() == jvm_args@.len());
    assert(script@ =~= stub_head() + payload_hash@ + stub_cache() + decimal_digits(
        payload_size as nat,
    ) + stub_extract() + jvm_args_text(views(jvm_args@)));
    script.append(" -jar \"$CACHE_DIR/app.jar\" \"$@\"\nexit 0\n# --- PAYLOAD BELOW ---\n");
    script
}

/// The payload size that a launcher script declares, for a script whose
/// cache identifier is `hash_len` characters long: the number written after
/// `PAYLOAD_SIZE=`. The launcher unpacks that many bytes from the end of
/// its own file.
pub open spec fn declared_size(script: Seq<char>, hash_len: nat) -> nat {
    decimal_value(
        leading_digits(script.skip((stub_head().len() + hash_len + stub_cache().len()) as int)),
    )
}

/// The size that a rendered script declares is the size it was rendered
/// with, whatever the fingerprint and the runtime arguments are.
pub proof fn lemma_declared_size(hash: Seq<char>, size: nat, args: Seq<Seq<char>>)
    ensures
        declared_size(stub_text(hash, size, args), hash.len()) == size,
{
    reveal_strlit(
        "\n\nif [ ! -d \"$CACHE_DIR/runtime\" ]; then\n    mkdir -p \"$CACHE_DIR\"\n    echo \"Extracting runtime (first run)...\" >&2\n    tail -c \"$PAYLOAD_SIZE\" \"$0\" | tar xzf - -C \"$CACHE_DIR\"\nfi\n\nexec \"$CACHE_DIR/runtime/bin/java\"",
    );
    let script = stub_text(hash, size, args);
    let offset = (stub_head().len() + hash.len() + stub_cache().len()) as int;
    let digits = decimal_digits(size);
    let rest = stub_extract() + jvm_args_text(args) + stub_tail();
    assert(script.skip(offset) =~= digits + rest);
    assert(rest[0] == stub_extract()[0]);
    assert(stub_extract()[0] == '\n');
    lemma_decimal_digits_shape(size);
    lemma_leading_digits(digits, rest);
    lemma_decimal_value_of_digits(size);
}

} // verus!
