//! Truncated MD5 and SHA-256: the first one or two bytes of the full digest.

use vstd::prelude::*;
use md5::Md5;
use sha2::{Digest, Sha256};

verus! {

/// The 16-byte MD5 digest of a byte sequence, as the `md-5` crate computes it.
pub uninterp spec fn md5_digest(data: Seq<u8>) -> Seq<u8>;

/// The 32-byte SHA-256 digest of a byte sequence, as the `sha2` crate computes it.
pub uninterp spec fn sha256_digest(data: Seq<u8>) -> Seq<u8>;

/// A 16-bit value from two bytes, the first one most significant (big-endian).
pub open spec fn be_u16(hi: u8, lo: u8) -> u16 {
    (hi as int * 256 + lo as int) as u16
}

/// The first byte of the MD5 digest.
pub open spec fn spec_md5_8bit(data: Seq<u8>) -> u8 {
    md5_digest(data)[0]
}

/// The first two bytes of the MD5 digest, big-endian.
pub open spec fn spec_md5_16bit(data: Seq<u8>) -> u16 {
    be_u16(md5_digest(data)[0], md5_digest(data)[1])
}

/// The first byte of the SHA-256 digest.
pub open spec fn spec_sha256_8bit(data: Seq<u8>) -> u8 {
    sha256_digest(data)[0]
}

/// The first two bytes of the SHA-256 digest, big-endian.
pub open spec fn spec_sha256_16bit(data: Seq<u8>) -> u16 {
    be_u16(sha256_digest(data)[0], sha256_digest(data)[1])
}

/// The truncated hashes read the digest of the whole input: the 8-bit hash
/// is its first byte, the 16-bit hash its first two bytes big-endian, so
/// the 8-bit hash is the high byte of the 16-bit one.
pub proof fn lemma_truncations_of_whole_digest(data: Seq<u8>)
    ensures
        spec_md5_8bit(data) == md5_digest(data)[0],
        spec_md5_16bit(data) as int == md5_digest(data)[0] as int * 256 + md5_digest(data)[1] as int,
        spec_md5_16bit(data) / 256 == spec_md5_8bit(data),
        spec_sha256_8bit(data) == sha256_digest(data)[0],
        spec_sha256_16bit(data) as int == sha256_digest(data)[0] as int * 256
            + sha256_digest(data)[1] as int,
        spec_sha256_16bit(data) / 256 == spec_sha256_8bit(data),
{
}

/// Full MD5 digest of `data`, through `<md5::Md5 as digest::Digest>::digest`
/// (which feeds `data` to a fresh hasher and finalizes it).
///
/// Trusted: the result is the crate's digest of `data`, named `md5_digest`;
/// that it is the MD5 function of RFC 1321 is not stated here.
#[verifier::external_body]
fn md5_full(data: &[u8]) -> (digest: [u8; 16])
    ensures
        digest@ == md5_digest(data@),
{
    Md5::digest(data).into()
}

/// Full SHA-256 digest of `data`, through `<sha2::Sha256 as digest::Digest>::digest`
/// (which feeds `data` to a fresh hasher and finalizes it).
///
/// Trusted: the result is the crate's digest of `data`, named `sha256_digest`;
/// that it is the SHA-256 function of FIPS 180-4 is not stated here.
#[verifier::external_body]
fn sha256_full(data: &[u8]) -> (digest: [u8; 32])
    ensures
        digest@ == sha256_digest(data@),
{
    Sha256::digest(data).into()
}

/// Compute the 8-bit truncated MD5 hash: the first byte of the MD5 digest.
pub fn md5_8bit(data: &[u8]) -> (h: u8)
    ensures
        h == spec_md5_8bit(data@),
        h == md5_digest(data@)[0],
{
    let digest = md5_full(data);
    digest[0]
}

/// Compute the 16-bit truncated MD5 hash: the first two bytes of the MD5
/// digest as a big-endian `u16`.
pub fn md5_16bit(data: &[u8]) -> (h: u16)
    ensures
        h == spec_md5_16bit(data@),
        h as int == md5_digest(data@)[0] as int * 256 + md5_digest(data@)[1] as int,
{
    let digest = md5_full(data);
    (digest[0] as u16) * 256 + (digest[1] as u16)
}

/// Compute the 8-bit truncated SHA-256 hash: the first byte of the digest.
pub fn sha256_8bit(data: &[u8]) -> (h: u8)
    ensures
        h == spec_sha256_8bit(data@),
        h == sha256_digest(data@)[0],
{
    let digest = sha256_full(data);
    digest[0]
}

/// Compute the 16-bit truncated SHA-256 hash: the first two bytes of the
/// digest as a big-endian `u16`.
pub fn sha256_16bit(data: &[u8]) -> (h: u16)
    ensures
        h == spec_sha256_16bit(data@),
        h as int == sha256_digest(data@)[0] as int * 256 + sha256_digest(data@)[1] as int,
{
    let digest = sha256_full(data);
    (digest[0] as u16) * 256 + (digest[1] as u16)
}

} // verus!
