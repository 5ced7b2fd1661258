//! Hash inversion: a toy modular hash with its exact inverse, truncated MD5
//! and SHA-256 digests, two native 8-bit hash functions, and preimage tables
//! that map each hash value back to an input producing it.

pub mod digests;
pub mod lookup_tables;
pub mod mini;
pub mod simple;
pub mod table;

use vstd::prelude::*;

verus! {

/// Package version.
pub const VERSION: &'static str = "0.1.0";

/// Every hash of the library is deterministic: equal inputs hash alike.
pub proof fn lemma_hashes_deterministic(a: Seq<u8>, b: Seq<u8>)
    requires
        a == b,
    ensures
        digests::spec_md5_8bit(a) == digests::spec_md5_8bit(b),
        digests::spec_md5_16bit(a) == digests::spec_md5_16bit(b),
        digests::spec_sha256_8bit(a) == digests::spec_sha256_8bit(b),
        digests::spec_sha256_16bit(a) == digests::spec_sha256_16bit(b),
        mini::spec_mini_md5(a) == mini::spec_mini_md5(b),
        mini::spec_mini_sha256(a) == mini::spec_mini_sha256(b),
{
}

} // verus!

pub use simple::{inverse_simple_hash, simple_hash, SIMPLE_MOD};
pub use digests::{md5_16bit, md5_8bit, sha256_16bit, sha256_8bit};
pub use mini::{mini_md5, mini_sha256};
pub use table::HashLookupTable;
pub use lookup_tables::{
    lookup_md5_8bit_preimage, lookup_mini_md5_preimage, lookup_mini_sha256_preimage,
    lookup_sha256_8bit_preimage, MD5_8BIT_PREIMAGES, MINI_MD5_8BIT_PREIMAGES,
    MINI_SHA256_8BIT_PREIMAGES, SHA256_8BIT_PREIMAGES,
};
