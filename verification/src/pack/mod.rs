//! Assembling the final executable: the launcher preamble followed by the
//! payload archive.

pub mod archive;
pub mod stub;

use vstd::prelude::*;
use vstd::string::*;
use vstd::utf8::encode_utf8;
use crate::digest::fingerprint_text;
use crate::error::PackError;
use crate::text::views;
use self::archive::hash_file;
use self::stub::{declared_size, generate, lemma_declared_size, stub_text};

verus! {

/// The launcher preamble of a payload, as bytes: the script that embeds the
/// payload's fingerprint and its exact length.
pub open spec fn preamble_bytes(payload: Seq<u8>, args: Seq<Seq<char>>) -> Seq<u8> {
    encode_utf8(stub_text(fingerprint_text(payload), payload.len(), args))
}

/// The executable made of a payload: the preamble, then the payload's bytes
/// unchanged.
pub open spec fn binary_bytes(payload: Seq<u8>, args: Seq<Seq<char>>) -> Seq<u8> {
    preamble_bytes(payload, args) + payload
}

/// Composes the executable for a payload archive and the runtime arguments
/// to start the application with. An empty payload is refused: the launcher
/// would have nothing to unpack.
pub fn create_binary(payload: &[u8], jvm_args: &[String]) -> (binary: Result<Vec<u8>, PackError>)
    ensures
        payload@.len() == 0 ==> binary == Err::<Vec<u8>, PackError>(PackError::EmptyPayload),
        payload@.len() > 0 ==> binary is Ok && binary->Ok_0@ == binary_bytes(
            payload@,
            views(jvm_args@),
        ),
{
    if payload.len() == 0 {
        return Err(PackError::EmptyPayload);
    }
    let fingerprint = hash_file(payload);
    let script = generate(fingerprint.as_str(), payload.len() as u64, jvm_args);
    let mut binary = script.as_str().as_bytes_vec();
    binary.extend_from_slice(payload);
    Ok(binary)
}

/// What a launcher unpacks is what was packed: the bytes of an executable
/// are its preamble followed by the payload, so its last bytes, as many as
/// the payload is long, are the payload; and that length is the size the
/// preamble declares.
pub proof fn lemma_trailing_bytes_are_payload(payload: Seq<u8>, args: Seq<Seq<char>>)
    ensures
        binary_bytes(payload, args).len() == preamble_bytes(payload, args).len() + payload.len(),
        binary_bytes(payload, args).subrange(
            binary_bytes(payload, args).len() - payload.len(),
            binary_bytes(payload, args).len() as int,
        ) == payload,
        declared_size(
            stub_text(fingerprint_text(payload), payload.len(), args),
            fingerprint_text(payload).len(),
        ) == payload.len(),
{
    lemma_declared_size(fingerprint_text(payload), payload.len(), args);
}

} // verus!
