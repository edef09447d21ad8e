//! Digests and their text form: SHA-256 from `sha2`, lowercase hex from `hex`.

use sha2::Digest;
use vstd::prelude::*;
use vstd::string::StringSliceAdditionalSpecFns;

verus! {

/// The SHA-256 digest of `data`.
pub uninterp spec fn sha256(data: Seq<u8>) -> Seq<u8>;

/// The character of hex digit `n` (lowercase).
pub open spec fn hex_digit(n: u8) -> char {
    if n < 10 {
        (48 + n) as char
    } else {
        (87 + n) as char
    }
}

/// Lowercase hex text of `bytes`: two characters per byte, high nibble first.
pub open spec fn hex_lower(bytes: Seq<u8>) -> Seq<char> {
    Seq::new(
        2 * bytes.len(),
        |i: int|
            if i % 2 == 0 {
                hex_digit(bytes[i / 2] / 16)
            } else {
                hex_digit(bytes[i / 2] % 16)
            },
    )
}

/// Calls `sha2::Sha256::digest`; the result is the SHA-256 digest of the input,
/// 32 bytes long. What the digest is beyond its length is left to the name
/// `sha256`.
#[verifier::external_body]
fn sha256_digest(data: &[u8]) -> (d: Vec<u8>)
    ensures
        d@ == sha256(data@),
        d@.len() == 32,
{
    sha2::Sha256::digest(data).to_vec()
}

/// Calls `hex::encode`, which writes each byte as two lowercase hex digits,
/// high nibble first.
#[verifier::external_body]
fn hex_encode(data: &[u8]) -> (s: String)
    ensures
        s@ == hex_lower(data@),
{
    hex::encode(data)
}

/// Lowercase hex text of the SHA-256 digest of `data`.
pub fn sha256_hex_bytes(data: &[u8]) -> (s: String)
    ensures
        s@ == hex_lower(sha256(data@)),
        s@.len() == 64,
{
    let d = sha256_digest(data);
    hex_encode(d.as_slice())
}

/// Lowercase hex text of the SHA-256 digest of the UTF-8 bytes of `text`.
pub fn sha256_hex(text: &str) -> (s: String)
    ensures
        s@ == hex_lower(sha256(text.spec_bytes())),
        s@.len() == 64,
{
    sha256_hex_bytes(text.as_bytes())
}

} // verus!
