//! Content digests for integrity fields: the SHA-256 digest of a byte
//! payload, hex-encoded in lower case.

use vstd::prelude::*;

verus! {

/// The SHA-256 digest (32 bytes) of `data`.
pub uninterp spec fn sha256_of(data: Seq<u8>) -> Seq<u8>;

/// The lower-case hex digit (as an ASCII byte) for a value below 16.
pub open spec fn hex_digit(n: u8) -> u8
    recommends
        n < 16,
{
    if n < 10 {
        (48 + n) as u8  // '0'..'9'
    } else {
        (87 + n) as u8  // 'a'..'f'
    }
}

/// The lower-case hex encoding of `data`: two digits for each byte, high
/// nibble first.
pub open spec fn hex_bytes_of(data: Seq<u8>) -> Seq<u8> {
    Seq::new(
        data.len() * 2,
        |i: int|
            if i % 2 == 0 {
                hex_digit(data[i / 2] / 16)
            } else {
                hex_digit(data[i / 2] % 16)
            },
    )
}

/// Relies on `sha2::Sha256`: the digest is 32 bytes and a function of the
/// input bytes alone.
#[verifier::external_body]
fn sha256(data: &[u8]) -> (r: Vec<u8>)
    ensures
        r@ == sha256_of(data@),
        r@.len() == 32,
{
    <sha2::Sha256 as sha2::Digest>::digest(data).to_vec()
}

/// Relies on `hex::encode`: two lower-case hex digits for each input byte,
/// high nibble first.
#[verifier::external_body]
fn hex_lower(data: &[u8]) -> (r: Vec<u8>)
    ensures
        r@ == hex_bytes_of(data@),
{
    hex::encode(data).into_bytes()
}

/// The hex-encoded SHA-256 digest of `data`.
pub open spec fn digest_of(data: Seq<u8>) -> Seq<u8> {
    hex_bytes_of(sha256_of(data))
}

/// The integrity digest embedded into rendered manifests: the SHA-256
/// digest of `data`, hex-encoded in lower case (64 digits).
pub fn digest(data: &[u8]) -> (r: Vec<u8>)
    ensures
        r@ == digest_of(data@),
        r@.len() == 64,
{
    let d = sha256(data);
    hex_lower(d.as_slice())
}

/// The digest is a pure function: identical input bytes always yield an
/// identical hex digest.
pub proof fn lemma_digest_deterministic(a: Seq<u8>, b: Seq<u8>)
    requires
        a == b,
    ensures
        digest_of(a) == digest_of(b),
{
}

} // verus!
