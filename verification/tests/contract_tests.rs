//! Exact values of each function, the edge cases the original handles, and
//! concrete instances of the laws the library proves.

use hash_inversion::{
    inverse_simple_hash, lookup_mini_md5_preimage, lookup_mini_sha256_preimage,
    lookup_md5_8bit_preimage, md5_16bit, md5_8bit, mini_md5, mini_sha256, sha256_16bit,
    sha256_8bit, simple_hash, HashLookupTable, MINI_MD5_8BIT_PREIMAGES, SIMPLE_MOD,
};

#[test]
fn simple_hash_negative_input_uses_euclidean_remainder() {
    // (7 * -1 + 3) = -4, and -4 mod 101 = 97.
    assert_eq!(simple_hash(-1), 97);
    assert_eq!(simple_hash(-15), 100);
}

#[test]
fn simple_hash_is_periodic() {
    assert_eq!(simple_hash(101), simple_hash(0));
    assert_eq!(simple_hash(101 + 10), 73);
}

#[test]
fn inverse_then_hash_is_identity_on_first_period() {
    for y in 0..SIMPLE_MOD {
        assert_eq!(simple_hash(inverse_simple_hash(y)), y);
    }
    assert_eq!(inverse_simple_hash(100), 86);
}

#[test]
fn inverse_of_hash_of_large_input_is_its_residue() {
    assert_eq!(inverse_simple_hash(simple_hash(1000)), 1000 % 101);
    assert_eq!(inverse_simple_hash(simple_hash(-5)), 96);
}

#[test]
fn truncated_digests_exact_values() {
    // md5("hello") = 5d41402a..., sha256("hello") = 2cf24dba...
    assert_eq!(md5_8bit(b"hello"), 0x5d);
    assert_eq!(md5_16bit(b"hello"), 0x5d41);
    assert_eq!(sha256_8bit(b"hello"), 0x2c);
    assert_eq!(sha256_16bit(b"hello"), 0x2cf2);
}

#[test]
fn mini_hashes_exact_values() {
    assert_eq!(mini_md5(b"hello"), 254);
    assert_eq!(mini_md5(b""), 222);
    assert_eq!(mini_md5(b"The quick brown fox jumps over the lazy dog"), 35);
    assert_eq!(mini_sha256(b"hello"), 100);
    assert_eq!(mini_sha256(b""), 164);
    assert_eq!(mini_sha256(&[0, 1, 2]), 45);
}

#[test]
fn tables_keep_the_first_preimage() {
    let md5_table = HashLookupTable::new_md5_8bit();
    assert_eq!(md5_table.lookup(0), Some(&[21u8, 1, 0, 0][..]));
    assert_eq!(md5_table.lookup(7), Some(&[74u8, 2, 0, 0][..]));
    let sha_table = HashLookupTable::new_sha256_8bit();
    assert_eq!(sha_table.lookup(0), Some(&[85u8, 0, 0, 0][..]));
    let mini_table = HashLookupTable::new_mini_md5();
    assert_eq!(mini_table.lookup(0), Some(&[121u8][..]));
    assert_eq!(mini_table.lookup(3), Some(&[48u8, 0][..]));
}

#[test]
fn lookup_outside_the_hash_range_finds_nothing() {
    let table = HashLookupTable::new_mini_sha256();
    assert_eq!(table.lookup(256), None);
    assert_eq!(table.lookup(u32::MAX), None);
    assert!(table.coverage() <= table.max_hash_values());
}

#[test]
fn cloned_table_has_the_same_entries() {
    let table = HashLookupTable::new_mini_md5();
    let copy = table.clone();
    assert_eq!(copy.bits(), 8);
    assert_eq!(copy.hash_name(), "MiniMD5");
    assert_eq!(copy.coverage(), table.coverage());
    for h in 0..256u32 {
        assert_eq!(copy.lookup(h), table.lookup(h));
    }
}

#[test]
fn embedded_tables_decode_their_entries() {
    assert_eq!(lookup_mini_md5_preimage(0), vec![121u8]);
    // A two-byte entry.
    assert_eq!(MINI_MD5_8BIT_PREIMAGES[3], (2, 48, 0));
    assert_eq!(lookup_mini_md5_preimage(3), vec![48u8, 0]);
    assert_eq!(lookup_mini_md5_preimage(7), vec![44u8, 2]);
    assert_eq!(mini_sha256(&lookup_mini_sha256_preimage(200)), 200);
    assert_eq!(md5_8bit(&lookup_md5_8bit_preimage(93)), 93);
}
