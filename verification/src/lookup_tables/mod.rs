//! Precomputed preimage tables for the 8-bit hash functions, embedded as
//! constant arrays: one lookup inverts any 8-bit hash value.

use std::vec::Vec;
use vstd::prelude::*;
use crate::mini::{spec_mini_md5, spec_mini_sha256};

mod mini_data;
mod standard_data;

pub use mini_data::{
    lemma_mini_md5_preimages_hash_back, lemma_mini_sha256_preimages_hash_back,
    MINI_MD5_8BIT_PREIMAGES, MINI_SHA256_8BIT_PREIMAGES,
};
pub use standard_data::{MD5_8BIT_PREIMAGES, SHA256_8BIT_PREIMAGES};

verus! {

/// The preimage an embedded table entry `(len, b0, b1)` stands for:
/// `[b0]` when `len == 1`, `[b0, b1]` otherwise.
pub open spec fn preimage_bytes(entry: (u8, u8, u8)) -> Seq<u8> {
    if entry.0 == 1 {
        seq![entry.1]
    } else {
        seq![entry.1, entry.2]
    }
}

/// The preimage of a table entry.
fn entry_preimage(entry: (u8, u8, u8)) -> (preimage: Vec<u8>)
    ensures
        preimage@ == preimage_bytes(entry),
{
    let (len, b0, b1) = entry;
    if len == 1 {
        vec![b0]
    } else {
        lookup_two_byte_preimage(b0, b1)
    }
}

/// The two-byte preimage `[b0, b1]`, read back from its little-endian
/// index `b0 | b1 << 8` among all two-byte inputs.
fn lookup_two_byte_preimage(b0: u8, b1: u8) -> (preimage: Vec<u8>)
    ensures
        preimage@ == seq![b0, b1],
{
    let index: usize = (b0 as usize) | ((b1 as usize) << 8usize);
    proof {
        assert((((b0 as usize) | ((b1 as usize) << 8usize)) & 0xff) as u8 == b0) by (bit_vector);
        assert((((b0 as usize) | ((b1 as usize) << 8usize)) >> 8usize) as u8 == b1) by (bit_vector);
    }
    let preimage = vec![(index & 0xff) as u8, (index >> 8usize) as u8];
    assert(preimage@ =~= seq![b0, b1]);
    preimage
}

/// Look up a preimage for the given 8-bit MD5 hash value in the embedded
/// table: the preimage recorded in entry `hash` of `MD5_8BIT_PREIMAGES`.
pub fn lookup_md5_8bit_preimage(hash: u8) -> (preimage: Vec<u8>)
    ensures
        preimage@ == preimage_bytes(MD5_8BIT_PREIMAGES[hash as int]),
{
    entry_preimage(MD5_8BIT_PREIMAGES[hash as usize])
}

/// Look up a preimage for the given 8-bit SHA-256 hash value in the embedded
/// table: the preimage recorded in entry `hash` of `SHA256_8BIT_PREIMAGES`.
pub fn lookup_sha256_8bit_preimage(hash: u8) -> (preimage: Vec<u8>)
    ensures
        preimage@ == preimage_bytes(SHA256_8BIT_PREIMAGES[hash as int]),
{
    entry_preimage(SHA256_8BIT_PREIMAGES[hash as usize])
}

/// Look up a preimage for the given `MiniMD5` hash value in the embedded
/// table; its `MiniMD5` hash is `hash`.
pub fn lookup_mini_md5_preimage(hash: u8) -> (preimage: Vec<u8>)
    ensures
        preimage@ == preimage_bytes(MINI_MD5_8BIT_PREIMAGES[hash as int]),
        spec_mini_md5(preimage@) == hash,
{
    proof {
        lemma_mini_md5_preimages_hash_back(hash);
    }
    entry_preimage(MINI_MD5_8BIT_PREIMAGES[hash as usize])
}

/// Look up a preimage for the given `MiniSHA256` hash value in the embedded
/// table; its `MiniSHA256` hash is `hash`.
pub fn lookup_mini_sha256_preimage(hash: u8) -> (preimage: Vec<u8>)
    ensures
        preimage@ == preimage_bytes(MINI_SHA256_8BIT_PREIMAGES[hash as int]),
        spec_mini_sha256(preimage@) == hash,
{
    proof {
        lemma_mini_sha256_preimages_hash_back(hash);
    }
    entry_preimage(MINI_SHA256_8BIT_PREIMAGES[hash as usize])
}

} // verus!
