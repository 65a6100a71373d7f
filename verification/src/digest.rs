//! Content digests: SHA-256 over bytes, written in lowercase hexadecimal.

use sha2::Digest;
use vstd::prelude::*;
use vstd::string::*;

verus! {

/// The SHA-256 digest of `data`.
pub uninterp spec fn sha256_digest(data: Seq<u8>) -> Seq<u8>;

/// The lowercase hexadecimal digit of a value below sixteen.
pub open spec fn hex_char(d: nat) -> char {
    if d == 0 {
        '0'
    } else if d == 1 {
        '1'
    } else if d == 2 {
        '2'
    } else if d == 3 {
        '3'
    } else if d == 4 {
        '4'
    } else if d == 5 {
        '5'
    } else if d == 6 {
        '6'
    } else if d == 7 {
        '7'
    } else if d == 8 {
        '8'
    } else if d == 9 {
        '9'
    } else if d == 10 {
        'a'
    } else if d == 11 {
        'b'
    } else if d == 12 {
        'c'
    } else if d == 13 {
        'd'
    } else if d == 14 {
        'e'
    } else {
        'f'
    }
}

/// Whether `c` is a lowercase hexadecimal digit.
pub open spec fn is_hex_char(c: char) -> bool {
    ('0' <= c && c <= '9') || ('a' <= c && c <= 'f')
}

/// `bytes` in lowercase hexadecimal: two digits for each byte, high half
/// first, in the order of the bytes.
pub open spec fn hex_text(bytes: Seq<u8>) -> Seq<char> {
    Seq::new(
        2 * bytes.len(),
        |i: int|
            if i % 2 == 0 {
                hex_char((bytes[i / 2] / 16) as nat)
            } else {
                hex_char((bytes[i / 2] % 16) as nat)
            },
    )
}

/// The full digest of `data` in hexadecimal: 64 characters.
pub open spec fn hex_digest_text(data: Seq<u8>) -> Seq<char> {
    hex_text(sha256_digest(data))
}

/// The short fingerprint of `data`: the first 16 characters of its digest in
/// hexadecimal.
pub open spec fn fingerprint_text(data: Seq<u8>) -> Seq<char> {
    hex_digest_text(data).subrange(0, 16)
}

/// `sha2::Sha256::digest`: the SHA-256 digest of the given bytes, which is
/// 32 bytes long.
#[verifier::external_body]
fn sha256(data: &[u8]) -> (digest: Vec<u8>)
    ensures
        digest@ == sha256_digest(data@),
        digest@.len() == 32,
{
    sha2::Sha256::digest(data).to_vec()
}

/// The one-character string of a hexadecimal digit.
fn hex_str(d: u8) -> (s: &'static str)
    requires
        d < 16,
    ensures
        s@ == seq![hex_char(d as nat)],
{
    proof {
        reveal_strlit("0");
        reveal_strlit("1");
        reveal_strlit("2");
        reveal_strlit("3");
        reveal_strlit("4");
        reveal_strlit("5");
        reveal_strlit("6");
        reveal_strlit("7");
        reveal_strlit("8");
        reveal_strlit("9");
        reveal_strlit("a");
        reveal_strlit("b");
        reveal_strlit("c");
        reveal_strlit("d");
        reveal_strlit("e");
        reveal_strlit("f");
    }
    let s = if d == 0 {
        "0"
    } else if d == 1 {
        "1"
    } else if d == 2 {
        "2"
    } else if d == 3 {
        "3"
    } else if d == 4 {
        "4"
    } else if d == 5 {
        "5"
    } else if d == 6 {
        "6"
    } else if d == 7 {
        "7"
    } else if d == 8 {
        "8"
    } else if d == 9 {
        "9"
    } else if d == 10 {
        "a"
    } else if d == 11 {
        "b"
    } else if d == 12 {
        "c"
    } else if d == 13 {
        "d"
    } else if d == 14 {
        "e"
    } else {
        "f"
    };
    assert(s@ =~= seq![hex_char(d as nat)]);
    s
}

/// Writes `bytes` in lowercase hexadecimal.
pub fn to_hex(bytes: &[u8]) -> (text: String)
    ensures
        text@ == hex_text(bytes@),
{
    let mut text = String::new();
    let n: usize = bytes.len();
    let mut i: usize = 0;
    while i < n
        invariant
            n == bytes@.len(),
            i <= n,
            text@ == hex_text(bytes@.take(i as int)),
        decreases n - i,
    {
        let b: u8 = bytes[i];
        let ghost before = text@;
        text.append(hex_str(b / 16));
        text.append(hex_str(b % 16));
        proof {
            let next = bytes@.take(i + 1);
            assert(text@ == before + seq![hex_char((b / 16) as nat)] + seq![
                hex_char((b % 16) as nat),
            ]);
            assert(text@.len() == 2 * next.len());
            assert forall|k: int| 0 <= k < text@.len() implies text@[k] == hex_text(next)[k] by {
                if k < 2 * i {
                    assert(text@[k] == before[k]);
                    assert(next[k / 2] == bytes@.take(i as int)[k / 2]);
                } else {
                    assert(k / 2 == i);
                    assert(next[k / 2] == b);
                }
            }
            assert(text@ =~= hex_text(next));
        }
        i = i + 1;
    }
    proof {
        assert(bytes@.take(n as int) =~= bytes@);
    }
    text
}

/// The SHA-256 digest of `data` in lowercase hexadecimal.
pub fn hex_digest(data: &[u8]) -> (text: String)
    ensures
        text@ == hex_digest_text(data@),
        text@.len() == 64,
{
    let digest = sha256(data);
    to_hex(digest.as_slice())
}

} // verus!
