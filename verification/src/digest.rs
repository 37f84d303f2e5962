//! SHA-256 digests in lowercase hexadecimal.

use crate::text::{hex_of, hex_string, lemma_hex_of_len};
use crypto::digest::Digest;
use vstd::prelude::*;
use vstd::utf8::encode_utf8;

verus! {

/// The SHA-256 digest of a byte sequence: 32 bytes, a function of the input
/// alone.
pub uninterp spec fn sha256_of(bytes: Seq<u8>) -> Seq<u8>;

/// Relies on `crypto::sha2::Sha256` (through `crypto::digest::Digest`):
/// `result` yields the 256-bit SHA-256 digest of the bytes fed to `input`,
/// which depends on those bytes alone.
#[verifier::external_body]
fn sha256(bytes: &[u8]) -> (r: Vec<u8>)
    ensures
        r@ == sha256_of(bytes@),
        r@.len() == 32,
{
    let mut hasher = crypto::sha2::Sha256::new();
    hasher.input(bytes);
    let mut out = vec![0u8; 32];
    hasher.result(&mut out);
    out
}

/// The lowercase hexadecimal SHA-256 digest of the UTF-8 bytes of a string:
/// 64 hex digits.
pub open spec fn sha256_hex_of(s: Seq<char>) -> Seq<char> {
    hex_of(sha256_of(encode_utf8(s)))
}

/// Hashes the UTF-8 bytes of `s` and returns the digest as 64 lowercase
/// hexadecimal characters.
pub fn sha256_hex(s: &str) -> (r: String)
    ensures
        r@ == sha256_hex_of(s@),
        r@.len() == 64,
{
    let digest = sha256(s.as_bytes());
    proof {
        lemma_hex_of_len(digest@);
    }
    hex_string(digest.as_slice())
}

} // verus!
