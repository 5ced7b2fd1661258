//! Embedded preimage tables of the native 8-bit hashes, with the proof
//! that each entry hashes back to its index.

use vstd::prelude::*;
use crate::mini::{
    lemma_mini_md5_short, lemma_mini_sha256_short, mini_md5_of_one, mini_md5_of_two,
    mini_sha256_of_one, mini_sha256_of_two, spec_mini_md5, spec_mini_sha256,
};
use super::preimage_bytes;

verus! {

/// Preimages of the 8-bit `MiniMD5` hash, indexed by hash value `h`.
///
/// Entry `h` is `(len, b0, b1)`: the preimage is `[b0]` when `len == 1` and
/// `[b0, b1]` when `len == 2`. It is the first one-byte input, or failing
/// that the first two-byte input in little-endian order, whose `MiniMD5` hash is `h`.
pub const MINI_MD5_8BIT_PREIMAGES: [(u8, u8, u8); 256] = [
    (1, 121, 0), (1, 214, 0), (1, 53, 0), (2, 48, 0), (1, 64, 0), (2, 101, 0), (1, 87, 0), (2, 44, 2),
    (1, 8, 0), (2, 153, 0), (1, 2, 0), (1, 134, 0), (2, 113, 1), (1, 201, 0), (1, 219, 0), (1, 10, 0),
    (2, 174, 0), (1, 172, 0), (1, 31, 0), (1, 130, 0), (1, 7, 0), (1, 144, 0), (2, 145, 1), (2, 30, 1),
    (1, 19, 0), (2, 95, 1), (1, 86, 0), (1, 21, 0), (2, 27, 1), (2, 160, 0), (1, 38, 0), (1, 151, 0),
    (2, 135, 0), (2, 48, 1), (1, 40, 0), (2, 121, 1), (1, 140, 0), (2, 45, 0), (1, 90, 0), (1, 6, 0),
    (1, 27, 0), (2, 107, 1), (2, 96, 0), (2, 90, 1), (2, 181, 1), (1, 232, 0), (1, 72, 0), (1, 33, 0),
    (2, 126, 0), (1, 213, 0), (1, 16, 0), (1, 35, 0), (1, 105, 0), (2, 168, 0), (2, 89, 0), (1, 112, 0),
    (1, 56, 0), (1, 125, 0), (1, 132, 0), (2, 157, 0), (2, 74, 0), (1, 118, 0), (1, 42, 0), (2, 249, 0),
    (1, 135, 0), (1, 175, 0), (1, 117, 0), (1, 101, 0), (2, 34, 0), (1, 168, 0), (1, 29, 0), (1, 51, 0),
    (1, 254, 0), (1, 43, 0), (1, 14, 0), (1, 178, 0), (1, 49, 0), (2, 117, 1), (2, 30, 2), (1, 70, 0),
    (1, 46, 0), (1, 44, 0), (1, 235, 0), (2, 145, 0), (1, 136, 0), (2, 11, 0), (1, 9, 0), (2, 237, 0),
    (1, 142, 0), (2, 110, 0), (1, 28, 0), (1, 1, 0), (1, 138, 0), (2, 10, 2), (1, 52, 0), (2, 231, 0),
    (1, 119, 0), (2, 41, 1), (2, 54, 1), (1, 159, 0), (1, 22, 0), (1, 249, 0), (1, 99, 0), (1, 96, 0),
    (2, 10, 0), (1, 248, 0), (2, 29, 0), (1, 169, 0), (2, 172, 0), (1, 65, 0), (2, 154, 0), (1, 95, 0),
    (1, 110, 0), (1, 54, 0), (1, 139, 0), (2, 116, 1), (2, 139, 0), (1, 75, 0), (1, 45, 0), (1, 106, 0),
    (1, 39, 0), (1, 85, 0), (2, 128, 1), (1, 3, 0), (1, 104, 0), (1, 189, 0), (2, 44, 1), (1, 161, 0),
    (1, 171, 0), (1, 129, 0), (1, 126, 0), (2, 84, 0), (1, 166, 0), (1, 180, 0), (1, 41, 0), (1, 145, 0),
    (2, 161, 4), (2, 162, 0), (2, 28, 0), (2, 120, 1), (1, 62, 0), (1, 155, 0), (2, 63, 2), (1, 97, 0),
    (1, 18, 0), (1, 115, 0), (2, 19, 0), (1, 100, 0), (1, 0, 0), (2, 178, 0), (2, 57, 0), (1, 238, 0),
    (2, 198, 0), (2, 4, 0), (1, 24, 0), (1, 5, 0), (1, 205, 0), (2, 253, 0), (1, 36, 0), (2, 133, 2),
    (2, 181, 0), (2, 30, 0), (1, 25, 0), (1, 170, 0), (1, 82, 0), (2, 76, 0), (1, 50, 0), (1, 252, 0),
    (1, 48, 0), (2, 3, 1), (2, 125, 1), (1, 30, 0), (2, 54, 0), (2, 99, 2), (2, 99, 1), (2, 189, 0),
    (2, 166, 1), (1, 186, 0), (1, 163, 0), (1, 83, 0), (1, 111, 0), (1, 164, 0), (1, 208, 0), (1, 26, 0),
    (1, 11, 0), (2, 14, 0), (1, 226, 0), (1, 108, 0), (2, 6, 0), (1, 156, 0), (1, 76, 0), (2, 42, 0),
    (1, 120, 0), (2, 105, 1), (2, 173, 1), (1, 92, 0), (1, 71, 0), (2, 32, 0), (1, 12, 0), (1, 133, 0),
    (2, 34, 2), (2, 55, 0), (2, 241, 0), (1, 154, 0), (2, 27, 0), (1, 137, 0), (2, 55, 1), (1, 174, 0),
    (1, 194, 0), (2, 59, 0), (1, 15, 0), (2, 123, 1), (1, 57, 0), (1, 74, 0), (1, 84, 0), (2, 15, 2),
    (2, 215, 0), (1, 167, 0), (1, 240, 0), (1, 66, 0), (1, 67, 0), (2, 248, 0), (2, 46, 0), (1, 13, 0),
    (1, 162, 0), (2, 2, 0), (1, 123, 0), (1, 217, 0), (1, 63, 0), (1, 59, 0), (1, 109, 0), (2, 64, 0),
    (1, 20, 0), (2, 2, 2), (1, 17, 0), (1, 37, 0), (1, 4, 0), (2, 109, 0), (2, 31, 5), (1, 32, 0),
    (1, 216, 0), (1, 224, 0), (2, 198, 1), (1, 177, 0), (2, 187, 0), (1, 23, 0), (1, 79, 0), (2, 210, 1),
    (1, 128, 0), (2, 15, 1), (1, 93, 0), (2, 86, 1), (1, 55, 0), (2, 32, 1), (1, 98, 0), (1, 152, 0),
];

/// Preimages of the 8-bit `MiniSHA256` hash, indexed by hash value `h`.
///
/// Entry `h` is `(len, b0, b1)`: the preimage is `[b0]` when `len == 1` and
/// `[b0, b1]` when `len == 2`. It is the first one-byte input, or failing
/// that the first two-byte input in little-endian order, whose `MiniSHA256` hash is `h`.
pub const MINI_SHA256_8BIT_PREIMAGES: [(u8, u8, u8); 256] = [
    (2, 6, 0), (1, 169, 0), (1, 53, 0), (2, 119, 1), (1, 140, 0), (1, 131, 0), (1, 130, 0), (2, 168, 0),
    (1, 136, 0), (1, 120, 0), (2, 230, 0), (1, 148, 0), (1, 38, 0), (1, 45, 0), (1, 138, 0), (1, 152, 0),
    (1, 144, 0), (1, 128, 0), (1, 129, 0), (1, 118, 0), (2, 66, 0), (2, 185, 0), (2, 90, 0), (1, 77, 0),
    (2, 92, 0), (1, 214, 0), (1, 36, 0), (1, 201, 0), (1, 127, 0), (1, 90, 0), (1, 198, 0), (1, 122, 0),
    (2, 8, 0), (1, 52, 0), (1, 44, 0), (2, 88, 0), (1, 106, 0), (1, 37, 0), (1, 125, 0), (1, 54, 0),
    (1, 102, 0), (1, 94, 0), (2, 5, 0), (1, 103, 0), (1, 85, 0), (1, 184, 0), (1, 215, 0), (1, 99, 0),
    (1, 110, 0), (2, 231, 0), (2, 23, 0), (1, 171, 0), (1, 46, 0), (1, 113, 0), (1, 147, 0), (1, 212, 0),
    (2, 91, 1), (1, 109, 0), (2, 232, 0), (1, 88, 0), (1, 234, 0), (1, 30, 0), (2, 52, 1), (2, 79, 1),
    (1, 55, 0), (1, 86, 0), (2, 184, 0), (1, 73, 0), (1, 72, 0), (2, 77, 0), (1, 70, 0), (1, 92, 0),
    (1, 63, 0), (2, 210, 1), (1, 194, 0), (2, 122, 0), (1, 80, 0), (1, 71, 0), (1, 78, 0), (1, 47, 0),
    (2, 81, 2), (1, 188, 0), (1, 164, 0), (1, 186, 0), (2, 54, 1), (2, 195, 0), (2, 147, 1), (2, 49, 0),
    (1, 149, 0), (1, 143, 0), (1, 112, 0), (1, 126, 0), (2, 21, 0), (2, 179, 1), (2, 116, 0), (1, 145, 0),
    (1, 123, 0), (2, 173, 0), (2, 107, 0), (1, 96, 0), (2, 84, 0), (1, 124, 0), (1, 100, 0), (1, 39, 0),
    (1, 170, 0), (2, 166, 3), (1, 31, 0), (1, 133, 0), (1, 153, 0), (1, 105, 0), (1, 108, 0), (2, 29, 0),
    (1, 162, 0), (1, 101, 0), (1, 104, 0), (1, 20, 0), (1, 25, 0), (1, 22, 0), (1, 57, 0), (1, 24, 0),
    (1, 16, 0), (1, 26, 0), (1, 181, 0), (1, 239, 0), (1, 51, 0), (1, 165, 0), (2, 31, 0), (1, 32, 0),
    (1, 230, 0), (2, 226, 0), (1, 14, 0), (1, 5, 0), (1, 255, 0), (2, 159, 0), (1, 10, 0), (2, 120, 2),
    (1, 34, 0), (1, 7, 0), (1, 6, 0), (2, 71, 1), (1, 12, 0), (1, 252, 0), (1, 2, 0), (2, 27, 0),
    (1, 243, 0), (1, 18, 0), (1, 159, 0), (2, 246, 0), (1, 179, 0), (1, 56, 0), (1, 48, 0), (1, 250, 0),
    (1, 89, 0), (1, 180, 0), (1, 1, 0), (2, 72, 0), (1, 33, 0), (1, 64, 0), (1, 65, 0), (1, 205, 0),
    (2, 61, 0), (2, 96, 0), (1, 202, 0), (1, 156, 0), (1, 213, 0), (2, 9, 0), (1, 223, 0), (1, 17, 0),
    (2, 117, 1), (1, 41, 0), (1, 219, 0), (1, 81, 0), (1, 187, 0), (2, 154, 1), (1, 40, 0), (1, 9, 0),
    (1, 157, 0), (1, 195, 0), (1, 211, 0), (2, 193, 3), (1, 208, 0), (2, 4, 2), (1, 206, 0), (1, 175, 0),
    (1, 76, 0), (1, 67, 0), (2, 35, 1), (1, 58, 0), (1, 98, 0), (1, 207, 0), (1, 228, 0), (1, 167, 0),
    (1, 21, 0), (1, 237, 0), (2, 59, 0), (2, 197, 2), (1, 59, 0), (1, 192, 0), (1, 193, 0), (2, 68, 1),
    (1, 29, 0), (1, 60, 0), (1, 61, 0), (1, 43, 0), (2, 64, 0), (2, 1, 3), (2, 13, 0), (1, 69, 0),
    (1, 42, 0), (2, 207, 0), (2, 186, 0), (2, 103, 0), (1, 4, 0), (1, 11, 0), (1, 236, 0), (2, 62, 1),
    (1, 183, 0), (1, 0, 0), (2, 4, 1), (1, 13, 0), (1, 200, 0), (1, 3, 0), (1, 19, 0), (1, 84, 0),
    (1, 8, 0), (1, 15, 0), (1, 23, 0), (1, 35, 0), (1, 166, 0), (1, 158, 0), (1, 27, 0), (2, 70, 0),
    (1, 225, 0), (1, 229, 0), (1, 232, 0), (2, 32, 0), (2, 47, 1), (2, 56, 1), (2, 46, 2), (1, 220, 0),
    (1, 191, 0), (2, 20, 0), (2, 143, 0), (1, 111, 0), (1, 119, 0), (2, 46, 1), (2, 247, 0), (1, 107, 0),
    (1, 115, 0), (1, 146, 0), (1, 142, 0), (1, 28, 0), (2, 151, 0), (1, 116, 0), (1, 95, 0), (2, 242, 1),
];

/// `MiniMD5` of a one-byte input, kept folded outside the bit-level proof.
#[verifier::opaque]
spec fn md5_one(b: u8) -> u8 {
    mini_md5_of_one(b)
}

/// `MiniMD5` of a two-byte input, kept folded outside the bit-level proof.
#[verifier::opaque]
spec fn md5_two(b0: u8, b1: u8) -> u8 {
    mini_md5_of_two(b0, b1)
}

/// `MiniMD5` of the preimage an entry stands for, kept folded while the
/// entries are checked one by one.
#[verifier::opaque]
spec fn md5_entry_hash(entry: (u8, u8, u8)) -> u8 {
    spec_mini_md5(preimage_bytes(entry))
}

/// A one-byte entry hashes to the folded one-byte form.
proof fn lemma_md5_entry_one(b0: u8, b1: u8)
    ensures
        md5_entry_hash((1u8, b0, b1)) == md5_one(b0),
{
    reveal(md5_entry_hash);
    reveal(md5_one);
    lemma_mini_md5_short(b0, b1);
}

/// A two-byte entry hashes to the folded two-byte form.
proof fn lemma_md5_entry_two(b0: u8, b1: u8)
    ensures
        md5_entry_hash((2u8, b0, b1)) == md5_two(b0, b1),
{
    reveal(md5_entry_hash);
    reveal(md5_two);
    lemma_mini_md5_short(b0, b1);
}

/// `MiniSHA256` of a one-byte input, kept folded outside the bit-level proof.
#[verifier::opaque]
spec fn sha256_one(b: u8) -> u8 {
    mini_sha256_of_one(b)
}

/// `MiniSHA256` of a two-byte input, kept folded outside the bit-level proof.
#[verifier::opaque]
spec fn sha256_two(b0: u8, b1: u8) -> u8 {
    mini_sha256_of_two(b0, b1)
}

/// `MiniSHA256` of the preimage an entry stands for, kept folded while the
/// entries are checked one by one.
#[verifier::opaque]
spec fn sha256_entry_hash(entry: (u8, u8, u8)) -> u8 {
    spec_mini_sha256(preimage_bytes(entry))
}

/// A one-byte entry hashes to the folded one-byte form.
proof fn lemma_sha256_entry_one(b0: u8, b1: u8)
    ensures
        sha256_entry_hash((1u8, b0, b1)) == sha256_one(b0),
{
    reveal(sha256_entry_hash);
    reveal(sha256_one);
    lemma_mini_sha256_short(b0, b1);
}

/// A two-byte entry hashes to the folded two-byte form.
proof fn lemma_sha256_entry_two(b0: u8, b1: u8)
    ensures
        sha256_entry_hash((2u8, b0, b1)) == sha256_two(b0, b1),
{
    reveal(sha256_entry_hash);
    reveal(sha256_two);
    lemma_mini_sha256_short(b0, b1);
}

/// The `MiniMD5` hash of every entry is its index, evaluated bit by bit.
proof fn md5_entries_hash_back()
    by (bit_vector)
    ensures
        md5_one(121u8) == 0u8,
        md5_one(214u8) == 1u8,
        md5_one(53u8) == 2u8,
        md5_two(48u8, 0u8) == 3u8,
        md5_one(64u8) == 4u8,
        md5_two(101u8, 0u8) == 5u8,
        md5_one(87u8) == 6u8,
        md5_two(44u8, 2u8) == 7u8,
        md5_one(8u8) == 8u8,
        md5_two(153u8, 0u8) == 9u8,
        md5_one(2u8) == 10u8,
        md5_one(134u8) == 11u8,
        md5_two(113u8, 1u8) == 12u8,
        md5_one(201u8) == 13u8,
        md5_one(219u8) == 14u8,
        md5_one(10u8) == 15u8,
        md5_two(174u8, 0u8) == 16u8,
        md5_one(172u8) == 17u8,
        md5_one(31u8) == 18u8,
        md5_one(130u8) == 19u8,
        md5_one(7u8) == 20u8,
        md5_one(144u8) == 21u8,
        md5_two(145u8, 1u8) == 22u8,
        md5_two(30u8, 1u8) == 23u8,
        md5_one(19u8) == 24u8,
        md5_two(95u8, 1u8) == 25u8,
        md5_one(86u8) == 26u8,
        md5_one(21u8) == 27u8,
        md5_two(27u8, 1u8) == 28u8,
        md5_two(160u8, 0u8) == 29u8,
        md5_one(38u8) == 30u8,
        md5_one(151u8) == 31u8,
        md5_two(135u8, 0u8) == 32u8,
        md5_two(48u8, 1u8) == 33u8,
        md5_one(40u8) == 34u8,
        md5_two(121u8, 1u8) == 35u8,
        md5_one(140u8) == 36u8,
        md5_two(45u8, 0u8) == 37u8,
        md5_one(90u8) == 38u8,
        md5_one(6u8) == 39u8,
        md5_one(27u8) == 40u8,
        md5_two(107u8, 1u8) == 41u8,
        md5_two(96u8, 0u8) == 42u8,
        md5_two(90u8, 1u8) == 43u8,
        md5_two(181u8, 1u8) == 44u8,
        md5_one(232u8) == 45u8,
        md5_one(72u8) == 46u8,
        md5_one(33u8) == 47u8,
        md5_two(126u8, 0u8) == 48u8,
        md5_one(213u8) == 49u8,
        md5_one(16u8) == 50u8,
        md5_one(35u8) == 51u8,
        md5_one(105u8) == 52u8,
        md5_two(168u8, 0u8) == 53u8,
        md5_two(89u8, 0u8) == 54u8,
        md5_one(112u8) == 55u8,
        md5_one(56u8) == 56u8,
        md5_one(125u8) == 57u8,
        md5_one(132u8) == 58u8,
        md5_two(157u8, 0u8) == 59u8,
        md5_two(74u8, 0u8) == 60u8,
        md5_one(118u8) == 61u8,
        md5_one(42u8) == 62u8,
        md5_two(249u8, 0u8) == 63u8,
        md5_one(135u8) == 64u8,
        md5_one(175u8) == 65u8,
        md5_one(117u8) == 66u8,
        md5_one(101u8) == 67u8,
        md5_two(34u8, 0u8) == 68u8,
        md5_one(168u8) == 69u8,
        md5_one(29u8) == 70u8,
        md5_one(51u8) == 71u8,
        md5_one(254u8) == 72u8,
        md5_one(43u8) == 73u8,
        md5_one(14u8) == 74u8,
        md5_one(178u8) == 75u8,
        md5_one(49u8) == 76u8,
        md5_two(117u8, 1u8) == 77u8,
        md5_two(30u8, 2u8) == 78u8,
        md5_one(70u8) == 79u8,
        md5_one(46u8) == 80u8,
        md5_one(44u8) == 81u8,
        md5_one(235u8) == 82u8,
        md5_two(145u8, 0u8) == 83u8,
        md5_one(136u8) == 84u8,
        md5_two(11u8, 0u8) == 85u8,
        md5_one(9u8) == 86u8,
        md5_two(237u8, 0u8) == 87u8,
        md5_one(142u8) == 88u8,
        md5_two(110u8, 0u8) == 89u8,
        md5_one(28u8) == 90u8,
        md5_one(1u8) == 91u8,
        md5_one(138u8) == 92u8,
        md5_two(10u8, 2u8) == 93u8,
        md5_one(52u8) == 94u8,
        md5_two(231u8, 0u8) == 95u8,
        md5_one(119u8) == 96u8,
        md5_two(41u8, 1u8) == 97u8,
        md5_two(54u8, 1u8) == 98u8,
        md5_one(159u8) == 99u8,
        md5_one(22u8) == 100u8,
        md5_one(249u8) == 101u8,
        md5_one(99u8) == 102u8,
        md5_one(96u8) == 103u8,
        md5_two(10u8, 0u8) == 104u8,
        md5_one(248u8) == 105u8,
        md5_two(29u8, 0u8) == 106u8,
        md5_one(169u8) == 107u8,
        md5_two(172u8, 0u8) == 108u8,
        md5_one(65u8) == 109u8,
        md5_two(154u8, 0u8) == 110u8,
        md5_one(95u8) == 111u8,
        md5_one(110u8) == 112u8,
        md5_one(54u8) == 113u8,
        md5_one(139u8) == 114u8,
        md5_two(116u8, 1u8) == 115u8,
        md5_two(139u8, 0u8) == 116u8,
        md5_one(75u8) == 117u8,
        md5_one(45u8) == 118u8,
        md5_one(106u8) == 119u8,
        md5_one(39u8) == 120u8,
        md5_one(85u8) == 121u8,
        md5_two(128u8, 1u8) == 122u8,
        md5_one(3u8) == 123u8,
        md5_one(104u8) == 124u8,
        md5_one(189u8) == 125u8,
        md5_two(44u8, 1u8) == 126u8,
        md5_one(161u8) == 127u8,
        md5_one(171u8) == 128u8,
        md5_one(129u8) == 129u8,
        md5_one(126u8) == 130u8,
        md5_two(84u8, 0u8) == 131u8,
        md5_one(166u8) == 132u8,
        md5_one(180u8) == 133u8,
        md5_one(41u8) == 134u8,
        md5_one(145u8) == 135u8,
        md5_two(161u8, 4u8) == 136u8,
        md5_two(162u8, 0u8) == 137u8,
        md5_two(28u8, 0u8) == 138u8,
        md5_two(120u8, 1u8) == 139u8,
        md5_one(62u8) == 140u8,
        md5_one(155u8) == 141u8,
        md5_two(63u8, 2u8) == 142u8,
        md5_one(97u8) == 143u8,
        md5_one(18u8) == 144u8,
        md5_one(115u8) == 145u8,
        md5_two(19u8, 0u8) == 146u8,
        md5_one(100u8) == 147u8,
        md5_one(0u8) == 148u8,
        md5_two(178u8, 0u8) == 149u8,
        md5_two(57u8, 0u8) == 150u8,
        md5_one(238u8) == 151u8,
        md5_two(198u8, 0u8) == 152u8,
        md5_two(4u8, 0u8) == 153u8,
        md5_one(24u8) == 154u8,
        md5_one(5u8) == 155u8,
        md5_one(205u8) == 156u8,
        md5_two(253u8, 0u8) == 157u8,
        md5_one(36u8) == 158u8,
        md5_two(133u8, 2u8) == 159u8,
        md5_two(181u8, 0u8) == 160u8,
        md5_two(30u8, 0u8) == 161u8,
        md5_one(25u8) == 162u8,
        md5_one(170u8) == 163u8,
        md5_one(82u8) == 164u8,
        md5_two(76u8, 0u8) == 165u8,
        md5_one(50u8) == 166u8,
        md5_one(252u8) == 167u8,
        md5_one(48u8) == 168u8,
        md5_two(3u8, 1u8) == 169u8,
        md5_two(125u8, 1u8) == 170u8,
        md5_one(30u8) == 171u8,
        md5_two(54u8, 0u8) == 172u8,
        md5_two(99u8, 2u8) == 173u8,
        md5_two(99u8, 1u8) == 174u8,
        md5_two(189u8, 0u8) == 175u8,
        md5_two(166u8, 1u8) == 176u8,
        md5_one(186u8) == 177u8,
        md5_one(163u8) == 178u8,
        md5_one(83u8) == 179u8,
        md5_one(111u8) == 180u8,
        md5_one(164u8) == 181u8,
        md5_one(208u8) == 182u8,
        md5_one(26u8) == 183u8,
        md5_one(11u8) == 184u8,
        md5_two(14u8, 0u8) == 185u8,
        md5_one(226u8) == 186u8,
        md5_one(108u8) == 187u8,
        md5_two(6u8, 0u8) == 188u8,
        md5_one(156u8) == 189u8,
        md5_one(76u8) == 190u8,
        md5_two(42u8, 0u8) == 191u8,
        md5_one(120u8) == 192u8,
        md5_two(105u8, 1u8) == 193u8,
        md5_two(173u8, 1u8) == 194u8,
        md5_one(92u8) == 195u8,
        md5_one(71u8) == 196u8,
        md5_two(32u8, 0u8) == 197u8,
        md5_one(12u8) == 198u8,
        md5_one(133u8) == 199u8,
        md5_two(34u8, 2u8) == 200u8,
        md5_two(55u8, 0u8) == 201u8,
        md5_two(241u8, 0u8) == 202u8,
        md5_one(154u8) == 203u8,
        md5_two(27u8, 0u8) == 204u8,
        md5_one(137u8) == 205u8,
        md5_two(55u8, 1u8) == 206u8,
        md5_one(174u8) == 207u8,
        md5_one(194u8) == 208u8,
        md5_two(59u8, 0u8) == 209u8,
        md5_one(15u8) == 210u8,
        md5_two(123u8, 1u8) == 211u8,
        md5_one(57u8) == 212u8,
        md5_one(74u8) == 213u8,
        md5_one(84u8) == 214u8,
        md5_two(15u8, 2u8) == 215u8,
        md5_two(215u8, 0u8) == 216u8,
        md5_one(167u8) == 217u8,
        md5_one(240u8) == 218u8,
        md5_one(66u8) == 219u8,
        md5_one(67u8) == 220u8,
        md5_two(248u8, 0u8) == 221u8,
        md5_two(46u8, 0u8) == 222u8,
        md5_one(13u8) == 223u8,
        md5_one(162u8) == 224u8,
        md5_two(2u8, 0u8) == 225u8,
        md5_one(123u8) == 226u8,
        md5_one(217u8) == 227u8,
        md5_one(63u8) == 228u8,
        md5_one(59u8) == 229u8,
        md5_one(109u8) == 230u8,
        md5_two(64u8, 0u8) == 231u8,
        md5_one(20u8) == 232u8,
        md5_two(2u8, 2u8) == 233u8,
        md5_one(17u8) == 234u8,
        md5_one(37u8) == 235u8,
        md5_one(4u8) == 236u8,
        md5_two(109u8, 0u8) == 237u8,
        md5_two(31u8, 5u8) == 238u8,
        md5_one(32u8) == 239u8,
        md5_one(216u8) == 240u8,
        md5_one(224u8) == 241u8,
        md5_two(198u8, 1u8) == 242u8,
        md5_one(177u8) == 243u8,
        md5_two(187u8, 0u8) == 244u8,
        md5_one(23u8) == 245u8,
        md5_one(79u8) == 246u8,
        md5_two(210u8, 1u8) == 247u8,
        md5_one(128u8) == 248u8,
        md5_two(15u8, 1u8) == 249u8,
        md5_one(93u8) == 250u8,
        md5_two(86u8, 1u8) == 251u8,
        md5_one(55u8) == 252u8,
        md5_two(32u8, 1u8) == 253u8,
        md5_one(98u8) == 254u8,
        md5_one(152u8) == 255u8,
{
}

/// The `MiniSHA256` hash of every entry is its index, evaluated bit by bit.
proof fn sha256_entries_hash_back()
    by (bit_vector)
    ensures
        sha256_two(6u8, 0u8) == 0u8,
        sha256_one(169u8) == 1u8,
        sha256_one(53u8) == 2u8,
        sha256_two(119u8, 1u8) == 3u8,
        sha256_one(140u8) == 4u8,
        sha256_one(131u8) == 5u8,
        sha256_one(130u8) == 6u8,
        sha256_two(168u8, 0u8) == 7u8,
        sha256_one(136u8) == 8u8,
        sha256_one(120u8) == 9u8,
        sha256_two(230u8, 0u8) == 10u8,
        sha256_one(148u8) == 11u8,
        sha256_one(38u8) == 12u8,
        sha256_one(45u8) == 13u8,
        sha256_one(138u8) == 14u8,
        sha256_one(152u8) == 15u8,
        sha256_one(144u8) == 16u8,
        sha256_one(128u8) == 17u8,
        sha256_one(129u8) == 18u8,
        sha256_one(118u8) == 19u8,
        sha256_two(66u8, 0u8) == 20u8,
        sha256_two(185u8, 0u8) == 21u8,
        sha256_two(90u8, 0u8) == 22u8,
        sha256_one(77u8) == 23u8,
        sha256_two(92u8, 0u8) == 24u8,
        sha256_one(214u8) == 25u8,
        sha256_one(36u8) == 26u8,
        sha256_one(201u8) == 27u8,
        sha256_one(127u8) == 28u8,
        sha256_one(90u8) == 29u8,
        sha256_one(198u8) == 30u8,
        sha256_one(122u8) == 31u8,
        sha256_two(8u8, 0u8) == 32u8,
        sha256_one(52u8) == 33u8,
        sha256_one(44u8) == 34u8,
        sha256_two(88u8, 0u8) == 35u8,
        sha256_one(106u8) == 36u8,
        sha256_one(37u8) == 37u8,
        sha256_one(125u8) == 38u8,
        sha256_one(54u8) == 39u8,
        sha256_one(102u8) == 40u8,
        sha256_one(94u8) == 41u8,
        sha256_two(5u8, 0u8) == 42u8,
        sha256_one(103u8) == 43u8,
        sha256_one(85u8) == 44u8,
        sha256_one(184u8) == 45u8,
        sha256_one(215u8) == 46u8,
        sha256_one(99u8) == 47u8,
        sha256_one(110u8) == 48u8,
        sha256_two(231u8, 0u8) == 49u8,
        sha256_two(23u8, 0u8) == 50u8,
        sha256_one(171u8) == 51u8,
        sha256_one(46u8) == 52u8,
        sha256_one(113u8) == 53u8,
        sha256_one(147u8) == 54u8,
        sha256_one(212u8) == 55u8,
        sha256_two(91u8, 1u8) == 56u8,
        sha256_one(109u8) == 57u8,
        sha256_two(232u8, 0u8) == 58u8,
        sha256_one(88u8) == 59u8,
        sha256_one(234u8) == 60u8,
        sha256_one(30u8) == 61u8,
        sha256_two(52u8, 1u8) == 62u8,
        sha256_two(79u8, 1u8) == 63u8,
        sha256_one(55u8) == 64u8,
        sha256_one(86u8) == 65u8,
        sha256_two(184u8, 0u8) == 66u8,
        sha256_one(73u8) == 67u8,
        sha256_one(72u8) == 68u8,
        sha256_two(77u8, 0u8) == 69u8,
        sha256_one(70u8) == 70u8,
        sha256_one(92u8) == 71u8,
        sha256_one(63u8) == 72u8,
        sha256_two(210u8, 1u8) == 73u8,
        sha256_one(194u8) == 74u8,
        sha256_two(122u8, 0u8) == 75u8,
        sha256_one(80u8) == 76u8,
        sha256_one(71u8) == 77u8,
        sha256_one(78u8) == 78u8,
        sha256_one(47u8) == 79u8,
        sha256_two(81u8, 2u8) == 80u8,
        sha256_one(188u8) == 81u8,
        sha256_one(164u8) == 82u8,
        sha256_one(186u8) == 83u8,
        sha256_two(54u8, 1u8) == 84u8,
        sha256_two(195u8, 0u8) == 85u8,
        sha256_two(147u8, 1u8) == 86u8,
        sha256_two(49u8, 0u8) == 87u8,
        sha256_one(149u8) == 88u8,
        sha256_one(143u8) == 89u8,
        sha256_one(112u8) == 90u8,
        sha256_one(126u8) == 91u8,
        sha256_two(21u8, 0u8) == 92u8,
        sha256_two(179u8, 1u8) == 93u8,
        sha256_two(116u8, 0u8) == 94u8,
        sha256_one(145u8) == 95u8,
        sha256_one(123u8) == 96u8,
        sha256_two(173u8, 0u8) == 97u8,
        sha256_two(107u8, 0u8) == 98u8,
        sha256_one(96u8) == 99u8,
        sha256_two(84u8, 0u8) == 100u8,
        sha256_one(124u8) == 101u8,
        sha256_one(100u8) == 102u8,
        sha256_one(39u8) == 103u8,
        sha256_one(170u8) == 104u8,
        sha256_two(166u8, 3u8) == 105u8,
        sha256_one(31u8) == 106u8,
        sha256_one(133u8) == 107u8,
        sha256_one(153u8) == 108u8,
        sha256_one(105u8) == 109u8,
        sha256_one(108u8) == 110u8,
        sha256_two(29u8, 0u8) == 111u8,
        sha256_one(162u8) == 112u8,
        sha256_one(101u8) == 113u8,
        sha256_one(104u8) == 114u8,
        sha256_one(20u8) == 115u8,
        sha256_one(25u8) == 116u8,
        sha256_one(22u8) == 117u8,
        sha256_one(57u8) == 118u8,
        sha256_one(24u8) == 119u8,
        sha256_one(16u8) == 120u8,
        sha256_one(26u8) == 121u8,
        sha256_one(181u8) == 122u8,
        sha256_one(239u8) == 123u8,
        sha256_one(51u8) == 124u8,
        sha256_one(165u8) == 125u8,
        sha256_two(31u8, 0u8) == 126u8,
        sha256_one(32u8) == 127u8,
        sha256_one(230u8) == 128u8,
        sha256_two(226u8, 0u8) == 129u8,
        sha256_one(14u8) == 130u8,
        sha256_one(5u8) == 131u8,
        sha256_one(255u8) == 132u8,
        sha256_two(159u8, 0u8) == 133u8,
        sha256_one(10u8) == 134u8,
        sha256_two(120u8, 2u8) == 135u8,
        sha256_one(34u8) == 136u8,
        sha256_one(7u8) == 137u8,
        sha256_one(6u8) == 138u8,
        sha256_two(71u8, 1u8) == 139u8,
        sha256_one(12u8) == 140u8,
        sha256_one(252u8) == 141u8,
        sha256_one(2u8) == 142u8,
        sha256_two(27u8, 0u8) == 143u8,
        sha256_one(243u8) == 144u8,
        sha256_one(18u8) == 145u8,
        sha256_one(159u8) == 146u8,
        sha256_two(246u8, 0u8) == 147u8,
        sha256_one(179u8) == 148u8,
        sha256_one(56u8) == 149u8,
        sha256_one(48u8) == 150u8,
        sha256_one(250u8) == 151u8,
        sha256_one(89u8) == 152u8,
        sha256_one(180u8) == 153u8,
        sha256_one(1u8) == 154u8,
        sha256_two(72u8, 0u8) == 155u8,
        sha256_one(33u8) == 156u8,
        sha256_one(64u8) == 157u8,
        sha256_one(65u8) == 158u8,
        sha256_one(205u8) == 159u8,
        sha256_two(61u8, 0u8) == 160u8,
        sha256_two(96u8, 0u8) == 161u8,
        sha256_one(202u8) == 162u8,
        sha256_one(156u8) == 163u8,
        sha256_one(213u8) == 164u8,
        sha256_two(9u8, 0u8) == 165u8,
        sha256_one(223u8) == 166u8,
        sha256_one(17u8) == 167u8,
        sha256_two(117u8, 1u8) == 168u8,
        sha256_one(41u8) == 169u8,
        sha256_one(219u8) == 170u8,
        sha256_one(81u8) == 171u8,
        sha256_one(187u8) == 172u8,
        sha256_two(154u8, 1u8) == 173u8,
        sha256_one(40u8) == 174u8,
        sha256_one(9u8) == 175u8,
        sha256_one(157u8) == 176u8,
        sha256_one(195u8) == 177u8,
        sha256_one(211u8) == 178u8,
        sha256_two(193u8, 3u8) == 179u8,
        sha256_one(208u8) == 180u8,
        sha256_two(4u8, 2u8) == 181u8,
        sha256_one(206u8) == 182u8,
        sha256_one(175u8) == 183u8,
        sha256_one(76u8) == 184u8,
        sha256_one(67u8) == 185u8,
        sha256_two(35u8, 1u8) == 186u8,
        sha256_one(58u8) == 187u8,
        sha256_one(98u8) == 188u8,
        sha256_one(207u8) == 189u8,
        sha256_one(228u8) == 190u8,
        sha256_one(167u8) == 191u8,
        sha256_one(21u8) == 192u8,
        sha256_one(237u8) == 193u8,
        sha256_two(59u8, 0u8) == 194u8,
        sha256_two(197u8, 2u8) == 195u8,
        sha256_one(59u8) == 196u8,
        sha256_one(192u8) == 197u8,
        sha256_one(193u8) == 198u8,
        sha256_two(68u8, 1u8) == 199u8,
        sha256_one(29u8) == 200u8,
        sha256_one(60u8) == 201u8,
        sha256_one(61u8) == 202u8,
        sha256_one(43u8) == 203u8,
        sha256_two(64u8, 0u8) == 204u8,
        sha256_two(1u8, 3u8) == 205u8,
        sha256_two(13u8, 0u8) == 206u8,
        sha256_one(69u8) == 207u8,
        sha256_one(42u8) == 208u8,
        sha256_two(207u8, 0u8) == 209u8,
        sha256_two(186u8, 0u8) == 210u8,
        sha256_two(103u8, 0u8) == 211u8,
        sha256_one(4u8) == 212u8,
        sha256_one(11u8) == 213u8,
        sha256_one(236u8) == 214u8,
        sha256_two(62u8, 1u8) == 215u8,
        sha256_one(183u8) == 216u8,
        sha256_one(0u8) == 217u8,
        sha256_two(4u8, 1u8) == 218u8,
        sha256_one(13u8) == 219u8,
        sha256_one(200u8) == 220u8,
        sha256_one(3u8) == 221u8,
        sha256_one(19u8) == 222u8,
        sha256_one(84u8) == 223u8,
        sha256_one(8u8) == 224u8,
        sha256_one(15u8) == 225u8,
        sha256_one(23u8) == 226u8,
        sha256_one(35u8) == 227u8,
        sha256_one(166u8) == 228u8,
        sha256_one(158u8) == 229u8,
        sha256_one(27u8) == 230u8,
        sha256_two(70u8, 0u8) == 231u8,
        sha256_one(225u8) == 232u8,
        sha256_one(229u8) == 233u8,
        sha256_one(232u8) == 234u8,
        sha256_two(32u8, 0u8) == 235u8,
        sha256_two(47u8, 1u8) == 236u8,
        sha256_two(56u8, 1u8) == 237u8,
        sha256_two(46u8, 2u8) == 238u8,
        sha256_one(220u8) == 239u8,
        sha256_one(191u8) == 240u8,
        sha256_two(20u8, 0u8) == 241u8,
        sha256_two(143u8, 0u8) == 242u8,
        sha256_one(111u8) == 243u8,
        sha256_one(119u8) == 244u8,
        sha256_two(46u8, 1u8) == 245u8,
        sha256_two(247u8, 0u8) == 246u8,
        sha256_one(107u8) == 247u8,
        sha256_one(115u8) == 248u8,
        sha256_one(146u8) == 249u8,
        sha256_one(142u8) == 250u8,
        sha256_one(28u8) == 251u8,
        sha256_two(151u8, 0u8) == 252u8,
        sha256_one(116u8) == 253u8,
        sha256_one(95u8) == 254u8,
        sha256_two(242u8, 1u8) == 255u8,
{
}

/// Entries 0 to 15 of `MINI_MD5_8BIT_PREIMAGES` are preimages of their index.
proof fn lemma_mini_md5_preimages_hash_back_0(h: u8)
    requires
        0 <= h < 16,
    ensures
        md5_entry_hash(MINI_MD5_8BIT_PREIMAGES[h as int]) == h,
{
    md5_entries_hash_back();
    if h == 0 {
        lemma_md5_entry_one(121, 0);
    } else if h == 1 {
        lemma_md5_entry_one(214, 0);
    } else if h == 2 {
        lemma_md5_entry_one(53, 0);
    } else if h == 3 {
        lemma_md5_entry_two(48, 0);
    } else if h == 4 {
        lemma_md5_entry_one(64, 0);
    } else if h == 5 {
        lemma_md5_entry_two(101, 0);
    } else if h == 6 {
        lemma_md5_entry_one(87, 0);
    } else if h == 7 {
        lemma_md5_entry_two(44, 2);
    } else if h == 8 {
        lemma_md5_entry_one(8, 0);
    } else if h == 9 {
        lemma_md5_entry_two(153, 0);
    } else if h == 10 {
        lemma_md5_entry_one(2, 0);
    } else if h == 11 {
        lemma_md5_entry_one(134, 0);
    } else if h == 12 {
        lemma_md5_entry_two(113, 1);
    } else if h == 13 {
        lemma_md5_entry_one(201, 0);
    } else if h == 14 {
        lemma_md5_entry_one(219, 0);
    } else if h == 15 {
        lemma_md5_entry_one(10, 0);
    }
}

/// Entries 16 to 31 of `MINI_MD5_8BIT_PREIMAGES` are preimages of their index.
proof fn lemma_mini_md5_preimages_hash_back_1(h: u8)
    requires
        16 <= h < 32,
    ensures
        md5_entry_hash(MINI_MD5_8BIT_PREIMAGES[h as int]) == h,
{
    md5_entries_hash_back();
    if h == 16 {
        lemma_md5_entry_two(174, 0);
    } else if h == 17 {
        lemma_md5_entry_one(172, 0);
    } else if h == 18 {
        lemma_md5_entry_one(31, 0);
    } else if h == 19 {
        lemma_md5_entry_one(130, 0);
    } else if h == 20 {
        lemma_md5_entry_one(7, 0);
    } else if h == 21 {
        lemma_md5_entry_one(144, 0);
    } else if h == 22 {
        lemma_md5_entry_two(145, 1);
    } else if h == 23 {
        lemma_md5_entry_two(30, 1);
    } else if h == 24 {
        lemma_md5_entry_one(19, 0);
    } else if h == 25 {
        lemma_md5_entry_two(95, 1);
    } else if h == 26 {
        lemma_md5_entry_one(86, 0);
    } else if h == 27 {
        lemma_md5_entry_one(21, 0);
    } else if h == 28 {
        lemma_md5_entry_two(27, 1);
    } else if h == 29 {
        lemma_md5_entry_two(160, 0);
    } else if h == 30 {
        lemma_md5_entry_one(38, 0);
    } else if h == 31 {
        lemma_md5_entry_one(151, 0);
    }
}

/// Entries 32 to 47 of `MINI_MD5_8BIT_PREIMAGES` are preimages of their index.
proof fn lemma_mini_md5_preimages_hash_back_2(h: u8)
    requires
        32 <= h < 48,
    ensures
        md5_entry_hash(MINI_MD5_8BIT_PREIMAGES[h as int]) == h,
{
    md5_entries_hash_back();
    if h == 32 {
        lemma_md5_entry_two(135, 0);
    } else if h == 33 {
        lemma_md5_entry_two(48, 1);
    } else if h == 34 {
        lemma_md5_entry_one(40, 0);
    } else if h == 35 {
        lemma_md5_entry_two(121, 1);
    } else if h == 36 {
        lemma_md5_entry_one(140, 0);
    } else if h == 37 {
        lemma_md5_entry_two(45, 0);
    } else if h == 38 {
        lemma_md5_entry_one(90, 0);
    } else if h == 39 {
        lemma_md5_entry_one(6, 0);
    } else if h == 40 {
        lemma_md5_entry_one(27, 0);
    } else if h == 41 {
        lemma_md5_entry_two(107, 1);
    } else if h == 42 {
        lemma_md5_entry_two(96, 0);
    } else if h == 43 {
        lemma_md5_entry_two(90, 1);
    } else if h == 44 {
        lemma_md5_entry_two(181, 1);
    } else if h == 45 {
        lemma_md5_entry_one(232, 0);
    } else if h == 46 {
        lemma_md5_entry_one(72, 0);
    } else if h == 47 {
        lemma_md5_entry_one(33, 0);
    }
}

/// Entries 48 to 63 of `MINI_MD5_8BIT_PREIMAGES` are preimages of their index.
proof fn lemma_mini_md5_preimages_hash_back_3(h: u8)
    requires
        48 <= h < 64,
    ensures
        md5_entry_hash(MINI_MD5_8BIT_PREIMAGES[h as int]) == h,
{
    md5_entries_hash_back();
    if h == 48 {
        lemma_md5_entry_two(126, 0);
    } else if h == 49 {
        lemma_md5_entry_one(213, 0);
    } else if h == 50 {
        lemma_md5_entry_one(16, 0);
    } else if h == 51 {
        lemma_md5_entry_one(35, 0);
    } else if h == 52 {
        lemma_md5_entry_one(105, 0);
    } else if h == 53 {
        lemma_md5_entry_two(168, 0);
    } else if h == 54 {
        lemma_md5_entry_two(89, 0);
    } else if h == 55 {
        lemma_md5_entry_one(112, 0);
    } else if h == 56 {
        lemma_md5_entry_one(56, 0);
    } else if h == 57 {
        lemma_md5_entry_one(125, 0);
    } else if h == 58 {
        lemma_md5_entry_one(132, 0);
    } else if h == 59 {
        lemma_md5_entry_two(157, 0);
    } else if h == 60 {
        lemma_md5_entry_two(74, 0);
    } else if h == 61 {
        lemma_md5_entry_one(118, 0);
    } else if h == 62 {
        lemma_md5_entry_one(42, 0);
    } else if h == 63 {
        lemma_md5_entry_two(249, 0);
    }
}

/// Entries 64 to 79 of `MINI_MD5_8BIT_PREIMAGES` are preimages of their index.
proof fn lemma_mini_md5_preimages_hash_back_4(h: u8)
    requires
        64 <= h < 80,
    ensures
        md5_entry_hash(MINI_MD5_8BIT_PREIMAGES[h as int]) == h,
{
    md5_entries_hash_back();
    if h == 64 {
        lemma_md5_entry_one(135, 0);
    } else if h == 65 {
        lemma_md5_entry_one(175, 0);
    } else if h == 66 {
        lemma_md5_entry_one(117, 0);
    } else if h == 67 {
        lemma_md5_entry_one(101, 0);
    } else if h == 68 {
        lemma_md5_entry_two(34, 0);
    } else if h == 69 {
        lemma_md5_entry_one(168, 0);
    } else if h == 70 {
        lemma_md5_entry_one(29, 0);
    } else if h == 71 {
        lemma_md5_entry_one(51, 0);
    } else if h == 72 {
        lemma_md5_entry_one(254, 0);
    } else if h == 73 {
        lemma_md5_entry_one(43, 0);
    } else if h == 74 {
        lemma_md5_entry_one(14, 0);
    } else if h == 75 {
        lemma_md5_entry_one(178, 0);
    } else if h == 76 {
        lemma_md5_entry_one(49, 0);
    } else if h == 77 {
        lemma_md5_entry_two(117, 1);
    } else if h == 78 {
        lemma_md5_entry_two(30, 2);
    } else if h == 79 {
        lemma_md5_entry_one(70, 0);
    }
}

/// Entries 80 to 95 of `MINI_MD5_8BIT_PREIMAGES` are preimages of their index.
proof fn lemma_mini_md5_preimages_hash_back_5(h: u8)
    requires
        80 <= h < 96,
    ensures
        md5_entry_hash(MINI_MD5_8BIT_PREIMAGES[h as int]) == h,
{
    md5_entries_hash_back();
    if h == 80 {
        lemma_md5_entry_one(46, 0);
    } else if h == 81 {
        lemma_md5_entry_one(44, 0);
    } else if h == 82 {
        lemma_md5_entry_one(235, 0);
    } else if h == 83 {
        lemma_md5_entry_two(145, 0);
    } else if h == 84 {
        lemma_md5_entry_one(136, 0);
    } else if h == 85 {
        lemma_md5_entry_two(11, 0);
    } else if h == 86 {
        lemma_md5_entry_one(9, 0);
    } else if h == 87 {
        lemma_md5_entry_two(237, 0);
    } else if h == 88 {
        lemma_md5_entry_one(142, 0);
    } else if h == 89 {
        lemma_md5_entry_two(110, 0);
    } else if h == 90 {
        lemma_md5_entry_one(28, 0);
    } else if h == 91 {
        lemma_md5_entry_one(1, 0);
    } else if h == 92 {
        lemma_md5_entry_one(138, 0);
    } else if h == 93 {
        lemma_md5_entry_two(10, 2);
    } else if h == 94 {
        lemma_md5_entry_one(52, 0);
    } else if h == 95 {
        lemma_md5_entry_two(231, 0);
    }
}

/// Entries 96 to 111 of `MINI_MD5_8BIT_PREIMAGES` are preimages of their index.
proof fn lemma_mini_md5_preimages_hash_back_6(h: u8)
    requires
        96 <= h < 112,
    ensures
        md5_entry_hash(MINI_MD5_8BIT_PREIMAGES[h as int]) == h,
{
    md5_entries_hash_back();
    if h == 96 {
        lemma_md5_entry_one(119, 0);
    } else if h == 97 {
        lemma_md5_entry_two(41, 1);
    } else if h == 98 {
        lemma_md5_entry_two(54, 1);
    } else if h == 99 {
        lemma_md5_entry_one(159, 0);
    } else if h == 100 {
        lemma_md5_entry_one(22, 0);
    } else if h == 101 {
        lemma_md5_entry_one(249, 0);
    } else if h == 102 {
        lemma_md5_entry_one(99, 0);
    } else if h == 103 {
        lemma_md5_entry_one(96, 0);
    } else if h == 104 {
        lemma_md5_entry_two(10, 0);
    } else if h == 105 {
        lemma_md5_entry_one(248, 0);
    } else if h == 106 {
        lemma_md5_entry_two(29, 0);
    } else if h == 107 {
        lemma_md5_entry_one(169, 0);
    } else if h == 108 {
        lemma_md5_entry_two(172, 0);
    } else if h == 109 {
        lemma_md5_entry_one(65, 0);
    } else if h == 110 {
        lemma_md5_entry_two(154, 0);
    } else if h == 111 {
        lemma_md5_entry_one(95, 0);
    }
}

/// Entries 112 to 127 of `MINI_MD5_8BIT_PREIMAGES` are preimages of their index.
proof fn lemma_mini_md5_preimages_hash_back_7(h: u8)
    requires
        112 <= h < 128,
    ensures
        md5_entry_hash(MINI_MD5_8BIT_PREIMAGES[h as int]) == h,
{
    md5_entries_hash_back();
    if h == 112 {
        lemma_md5_entry_one(110, 0);
    } else if h == 113 {
        lemma_md5_entry_one(54, 0);
    } else if h == 114 {
        lemma_md5_entry_one(139, 0);
    } else if h == 115 {
        lemma_md5_entry_two(116, 1);
    } else if h == 116 {
        lemma_md5_entry_two(139, 0);
    } else if h == 117 {
        lemma_md5_entry_one(75, 0);
    } else if h == 118 {
        lemma_md5_entry_one(45, 0);
    } else if h == 119 {
        lemma_md5_entry_one(106, 0);
    } else if h == 120 {
        lemma_md5_entry_one(39, 0);
    } else if h == 121 {
        lemma_md5_entry_one(85, 0);
    } else if h == 122 {
        lemma_md5_entry_two(128, 1);
    } else if h == 123 {
        lemma_md5_entry_one(3, 0);
    } else if h == 124 {
        lemma_md5_entry_one(104, 0);
    } else if h == 125 {
        lemma_md5_entry_one(189, 0);
    } else if h == 126 {
        lemma_md5_entry_two(44, 1);
    } else if h == 127 {
        lemma_md5_entry_one(161, 0);
    }
}

/// Entries 128 to 143 of `MINI_MD5_8BIT_PREIMAGES` are preimages of their index.
proof fn lemma_mini_md5_preimages_hash_back_8(h: u8)
    requires
        128 <= h < 144,
    ensures
        md5_entry_hash(MINI_MD5_8BIT_PREIMAGES[h as int]) == h,
{
    md5_entries_hash_back();
    if h == 128 {
        lemma_md5_entry_one(171, 0);
    } else if h == 129 {
        lemma_md5_entry_one(129, 0);
    } else if h == 130 {
        lemma_md5_entry_one(126, 0);
    } else if h == 131 {
        lemma_md5_entry_two(84, 0);
    } else if h == 132 {
        lemma_md5_entry_one(166, 0);
    } else if h == 133 {
        lemma_md5_entry_one(180, 0);
    } else if h == 134 {
        lemma_md5_entry_one(41, 0);
    } else if h == 135 {
        lemma_md5_entry_one(145, 0);
    } else if h == 136 {
        lemma_md5_entry_two(161, 4);
    } else if h == 137 {
        lemma_md5_entry_two(162, 0);
    } else if h == 138 {
        lemma_md5_entry_two(28, 0);
    } else if h == 139 {
        lemma_md5_entry_two(120, 1);
    } else if h == 140 {
        lemma_md5_entry_one(62, 0);
    } else if h == 141 {
        lemma_md5_entry_one(155, 0);
    } else if h == 142 {
        lemma_md5_entry_two(63, 2);
    } else if h == 143 {
        lemma_md5_entry_one(97, 0);
    }
}

/// Entries 144 to 159 of `MINI_MD5_8BIT_PREIMAGES` are preimages of their index.
proof fn lemma_mini_md5_preimages_hash_back_9(h: u8)
    requires
        144 <= h < 160,
    ensures
        md5_entry_hash(MINI_MD5_8BIT_PREIMAGES[h as int]) == h,
{
    md5_entries_hash_back();
    if h == 144 {
        lemma_md5_entry_one(18, 0);
    } else if h == 145 {
        lemma_md5_entry_one(115, 0);
    } else if h == 146 {
        lemma_md5_entry_two(19, 0);
    } else if h == 147 {
        lemma_md5_entry_one(100, 0);
    } else if h == 148 {
        lemma_md5_entry_one(0, 0);
    } else if h == 149 {
        lemma_md5_entry_two(178, 0);
    } else if h == 150 {
        lemma_md5_entry_two(57, 0);
    } else if h == 151 {
        lemma_md5_entry_one(238, 0);
    } else if h == 152 {
        lemma_md5_entry_two(198, 0);
    } else if h == 153 {
        lemma_md5_entry_two(4, 0);
    } else if h == 154 {
        lemma_md5_entry_one(24, 0);
    } else if h == 155 {
        lemma_md5_entry_one(5, 0);
    } else if h == 156 {
        lemma_md5_entry_one(205, 0);
    } else if h == 157 {
        lemma_md5_entry_two(253, 0);
    } else if h == 158 {
        lemma_md5_entry_one(36, 0);
    } else if h == 159 {
        lemma_md5_entry_two(133, 2);
    }
}

/// Entries 160 to 175 of `MINI_MD5_8BIT_PREIMAGES` are preimages of their index.
proof fn lemma_mini_md5_preimages_hash_back_10(h: u8)
    requires
        160 <= h < 176,
    ensures
        md5_entry_hash(MINI_MD5_8BIT_PREIMAGES[h as int]) == h,
{
    md5_entries_hash_back();
    if h == 160 {
        lemma_md5_entry_two(181, 0);
    } else if h == 161 {
        lemma_md5_entry_two(30, 0);
    } else if h == 162 {
        lemma_md5_entry_one(25, 0);
    } else if h == 163 {
        lemma_md5_entry_one(170, 0);
    } else if h == 164 {
        lemma_md5_entry_one(82, 0);
    } else if h == 165 {
        lemma_md5_entry_two(76, 0);
    } else if h == 166 {
        lemma_md5_entry_one(50, 0);
    } else if h == 167 {
        lemma_md5_entry_one(252, 0);
    } else if h == 168 {
        lemma_md5_entry_one(48, 0);
    } else if h == 169 {
        lemma_md5_entry_two(3, 1);
    } else if h == 170 {
        lemma_md5_entry_two(125, 1);
    } else if h == 171 {
        lemma_md5_entry_one(30, 0);
    } else if h == 172 {
        lemma_md5_entry_two(54, 0);
    } else if h == 173 {
        lemma_md5_entry_two(99, 2);
    } else if h == 174 {
        lemma_md5_entry_two(99, 1);
    } else if h == 175 {
        lemma_md5_entry_two(189, 0);
    }
}

/// Entries 176 to 191 of `MINI_MD5_8BIT_PREIMAGES` are preimages of their index.
proof fn lemma_mini_md5_preimages_hash_back_11(h: u8)
    requires
        176 <= h < 192,
    ensures
        md5_entry_hash(MINI_MD5_8BIT_PREIMAGES[h as int]) == h,
{
    md5_entries_hash_back();
    if h == 176 {
        lemma_md5_entry_two(166, 1);
    } else if h == 177 {
        lemma_md5_entry_one(186, 0);
    } else if h == 178 {
        lemma_md5_entry_one(163, 0);
    } else if h == 179 {
        lemma_md5_entry_one(83, 0);
    } else if h == 180 {
        lemma_md5_entry_one(111, 0);
    } else if h == 181 {
        lemma_md5_entry_one(164, 0);
    } else if h == 182 {
        lemma_md5_entry_one(208, 0);
    } else if h == 183 {
        lemma_md5_entry_one(26, 0);
    } else if h == 184 {
        lemma_md5_entry_one(11, 0);
    } else if h == 185 {
        lemma_md5_entry_two(14, 0);
    } else if h == 186 {
        lemma_md5_entry_one(226, 0);
    } else if h == 187 {
        lemma_md5_entry_one(108, 0);
    } else if h == 188 {
        lemma_md5_entry_two(6, 0);
    } else if h == 189 {
        lemma_md5_entry_one(156, 0);
    } else if h == 190 {
        lemma_md5_entry_one(76, 0);
    } else if h == 191 {
        lemma_md5_entry_two(42, 0);
    }
}

/// Entries 192 to 207 of `MINI_MD5_8BIT_PREIMAGES` are preimages of their index.
proof fn lemma_mini_md5_preimages_hash_back_12(h: u8)
    requires
        192 <= h < 208,
    ensures
        md5_entry_hash(MINI_MD5_8BIT_PREIMAGES[h as int]) == h,
{
    md5_entries_hash_back();
    if h == 192 {
        lemma_md5_entry_one(120, 0);
    } else if h == 193 {
        lemma_md5_entry_two(105, 1);
    } else if h == 194 {
        lemma_md5_entry_two(173, 1);
    } else if h == 195 {
        lemma_md5_entry_one(92, 0);
    } else if h == 196 {
        lemma_md5_entry_one(71, 0);
    } else if h == 197 {
        lemma_md5_entry_two(32, 0);
    } else if h == 198 {
        lemma_md5_entry_one(12, 0);
    } else if h == 199 {
        lemma_md5_entry_one(133, 0);
    } else if h == 200 {
        lemma_md5_entry_two(34, 2);
    } else if h == 201 {
        lemma_md5_entry_two(55, 0);
    } else if h == 202 {
        lemma_md5_entry_two(241, 0);
    } else if h == 203 {
        lemma_md5_entry_one(154, 0);
    } else if h == 204 {
        lemma_md5_entry_two(27, 0);
    } else if h == 205 {
        lemma_md5_entry_one(137, 0);
    } else if h == 206 {
        lemma_md5_entry_two(55, 1);
    } else if h == 207 {
        lemma_md5_entry_one(174, 0);
    }
}

/// Entries 208 to 223 of `MINI_MD5_8BIT_PREIMAGES` are preimages of their index.
proof fn lemma_mini_md5_preimages_hash_back_13(h: u8)
    requires
        208 <= h < 224,
    ensures
        md5_entry_hash(MINI_MD5_8BIT_PREIMAGES[h as int]) == h,
{
    md5_entries_hash_back();
    if h == 208 {
        lemma_md5_entry_one(194, 0);
    } else if h == 209 {
        lemma_md5_entry_two(59, 0);
    } else if h == 210 {
        lemma_md5_entry_one(15, 0);
    } else if h == 211 {
        lemma_md5_entry_two(123, 1);
    } else if h == 212 {
        lemma_md5_entry_one(57, 0);
    } else if h == 213 {
        lemma_md5_entry_one(74, 0);
    } else if h == 214 {
        lemma_md5_entry_one(84, 0);
    } else if h == 215 {
        lemma_md5_entry_two(15, 2);
    } else if h == 216 {
        lemma_md5_entry_two(215, 0);
    } else if h == 217 {
        lemma_md5_entry_one(167, 0);
    } else if h == 218 {
        lemma_md5_entry_one(240, 0);
    } else if h == 219 {
        lemma_md5_entry_one(66, 0);
    } else if h == 220 {
        lemma_md5_entry_one(67, 0);
    } else if h == 221 {
        lemma_md5_entry_two(248, 0);
    } else if h == 222 {
        lemma_md5_entry_two(46, 0);
    } else if h == 223 {
        lemma_md5_entry_one(13, 0);
    }
}

/// Entries 224 to 239 of `MINI_MD5_8BIT_PREIMAGES` are preimages of their index.
proof fn lemma_mini_md5_preimages_hash_back_14(h: u8)
    requires
        224 <= h < 240,
    ensures
        md5_entry_hash(MINI_MD5_8BIT_PREIMAGES[h as int]) == h,
{
    md5_entries_hash_back();
    if h == 224 {
        lemma_md5_entry_one(162, 0);
    } else if h == 225 {
        lemma_md5_entry_two(2, 0);
    } else if h == 226 {
        lemma_md5_entry_one(123, 0);
    } else if h == 227 {
        lemma_md5_entry_one(217, 0);
    } else if h == 228 {
        lemma_md5_entry_one(63, 0);
    } else if h == 229 {
        lemma_md5_entry_one(59, 0);
    } else if h == 230 {
        lemma_md5_entry_one(109, 0);
    } else if h == 231 {
        lemma_md5_entry_two(64, 0);
    } else if h == 232 {
        lemma_md5_entry_one(20, 0);
    } else if h == 233 {
        lemma_md5_entry_two(2, 2);
    } else if h == 234 {
        lemma_md5_entry_one(17, 0);
    } else if h == 235 {
        lemma_md5_entry_one(37, 0);
    } else if h == 236 {
        lemma_md5_entry_one(4, 0);
    } else if h == 237 {
        lemma_md5_entry_two(109, 0);
    } else if h == 238 {
        lemma_md5_entry_two(31, 5);
    } else if h == 239 {
        lemma_md5_entry_one(32, 0);
    }
}

/// Entries 240 to 255 of `MINI_MD5_8BIT_PREIMAGES` are preimages of their index.
proof fn lemma_mini_md5_preimages_hash_back_15(h: u8)
    requires
        240 <= h < 256,
    ensures
        md5_entry_hash(MINI_MD5_8BIT_PREIMAGES[h as int]) == h,
{
    md5_entries_hash_back();
    if h == 240 {
        lemma_md5_entry_one(216, 0);
    } else if h == 241 {
        lemma_md5_entry_one(224, 0);
    } else if h == 242 {
        lemma_md5_entry_two(198, 1);
    } else if h == 243 {
        lemma_md5_entry_one(177, 0);
    } else if h == 244 {
        lemma_md5_entry_two(187, 0);
    } else if h == 245 {
        lemma_md5_entry_one(23, 0);
    } else if h == 246 {
        lemma_md5_entry_one(79, 0);
    } else if h == 247 {
        lemma_md5_entry_two(210, 1);
    } else if h == 248 {
        lemma_md5_entry_one(128, 0);
    } else if h == 249 {
        lemma_md5_entry_two(15, 1);
    } else if h == 250 {
        lemma_md5_entry_one(93, 0);
    } else if h == 251 {
        lemma_md5_entry_two(86, 1);
    } else if h == 252 {
        lemma_md5_entry_one(55, 0);
    } else if h == 253 {
        lemma_md5_entry_two(32, 1);
    } else if h == 254 {
        lemma_md5_entry_one(98, 0);
    } else if h == 255 {
        lemma_md5_entry_one(152, 0);
    }
}

/// Every entry of `MINI_MD5_8BIT_PREIMAGES` is a preimage of its index under `MiniMD5`.
pub proof fn lemma_mini_md5_preimages_hash_back(h: u8)
    ensures
        spec_mini_md5(preimage_bytes(MINI_MD5_8BIT_PREIMAGES[h as int])) == h,
{
    reveal(md5_entry_hash);
    if h < 16 {
        lemma_mini_md5_preimages_hash_back_0(h);
    } else if h < 32 {
        lemma_mini_md5_preimages_hash_back_1(h);
    } else if h < 48 {
        lemma_mini_md5_preimages_hash_back_2(h);
    } else if h < 64 {
        lemma_mini_md5_preimages_hash_back_3(h);
    } else if h < 80 {
        lemma_mini_md5_preimages_hash_back_4(h);
    } else if h < 96 {
        lemma_mini_md5_preimages_hash_back_5(h);
    } else if h < 112 {
        lemma_mini_md5_preimages_hash_back_6(h);
    } else if h < 128 {
        lemma_mini_md5_preimages_hash_back_7(h);
    } else if h < 144 {
        lemma_mini_md5_preimages_hash_back_8(h);
    } else if h < 160 {
        lemma_mini_md5_preimages_hash_back_9(h);
    } else if h < 176 {
        lemma_mini_md5_preimages_hash_back_10(h);
    } else if h < 192 {
        lemma_mini_md5_preimages_hash_back_11(h);
    } else if h < 208 {
        lemma_mini_md5_preimages_hash_back_12(h);
    } else if h < 224 {
        lemma_mini_md5_preimages_hash_back_13(h);
    } else if h < 240 {
        lemma_mini_md5_preimages_hash_back_14(h);
    } else if h < 256 {
        lemma_mini_md5_preimages_hash_back_15(h);
    }
}

/// Entries 0 to 15 of `MINI_SHA256_8BIT_PREIMAGES` are preimages of their index.
proof fn lemma_mini_sha256_preimages_hash_back_0(h: u8)
    requires
        0 <= h < 16,
    ensures
        sha256_entry_hash(MINI_SHA256_8BIT_PREIMAGES[h as int]) == h,
{
    sha256_entries_hash_back();
    if h == 0 {
        lemma_sha256_entry_two(6, 0);
    } else if h == 1 {
        lemma_sha256_entry_one(169, 0);
    } else if h == 2 {
        lemma_sha256_entry_one(53, 0);
    } else if h == 3 {
        lemma_sha256_entry_two(119, 1);
    } else if h == 4 {
        lemma_sha256_entry_one(140, 0);
    } else if h == 5 {
        lemma_sha256_entry_one(131, 0);
    } else if h == 6 {
        lemma_sha256_entry_one(130, 0);
    } else if h == 7 {
        lemma_sha256_entry_two(168, 0);
    } else if h == 8 {
        lemma_sha256_entry_one(136, 0);
    } else if h == 9 {
        lemma_sha256_entry_one(120, 0);
    } else if h == 10 {
        lemma_sha256_entry_two(230, 0);
    } else if h == 11 {
        lemma_sha256_entry_one(148, 0);
    } else if h == 12 {
        lemma_sha256_entry_one(38, 0);
    } else if h == 13 {
        lemma_sha256_entry_one(45, 0);
    } else if h == 14 {
        lemma_sha256_entry_one(138, 0);
    } else if h == 15 {
        lemma_sha256_entry_one(152, 0);
    }
}

/// Entries 16 to 31 of `MINI_SHA256_8BIT_PREIMAGES` are preimages of their index.
proof fn lemma_mini_sha256_preimages_hash_back_1(h: u8)
    requires
        16 <= h < 32,
    ensures
        sha256_entry_hash(MINI_SHA256_8BIT_PREIMAGES[h as int]) == h,
{
    sha256_entries_hash_back();
    if h == 16 {
        lemma_sha256_entry_one(144, 0);
    } else if h == 17 {
        lemma_sha256_entry_one(128, 0);
    } else if h == 18 {
        lemma_sha256_entry_one(129, 0);
    } else if h == 19 {
        lemma_sha256_entry_one(118, 0);
    } else if h == 20 {
        lemma_sha256_entry_two(66, 0);
    } else if h == 21 {
        lemma_sha256_entry_two(185, 0);
    } else if h == 22 {
        lemma_sha256_entry_two(90, 0);
    } else if h == 23 {
        lemma_sha256_entry_one(77, 0);
    } else if h == 24 {
        lemma_sha256_entry_two(92, 0);
    } else if h == 25 {
        lemma_sha256_entry_one(214, 0);
    } else if h == 26 {
        lemma_sha256_entry_one(36, 0);
    } else if h == 27 {
        lemma_sha256_entry_one(201, 0);
    } else if h == 28 {
        lemma_sha256_entry_one(127, 0);
    } else if h == 29 {
        lemma_sha256_entry_one(90, 0);
    } else if h == 30 {
        lemma_sha256_entry_one(198, 0);
    } else if h == 31 {
        lemma_sha256_entry_one(122, 0);
    }
}

/// Entries 32 to 47 of `MINI_SHA256_8BIT_PREIMAGES` are preimages of their index.
proof fn lemma_mini_sha256_preimages_hash_back_2(h: u8)
    requires
        32 <= h < 48,
    ensures
        sha256_entry_hash(MINI_SHA256_8BIT_PREIMAGES[h as int]) == h,
{
    sha256_entries_hash_back();
    if h == 32 {
        lemma_sha256_entry_two(8, 0);
    } else if h == 33 {
        lemma_sha256_entry_one(52, 0);
    } else if h == 34 {
        lemma_sha256_entry_one(44, 0);
    } else if h == 35 {
        lemma_sha256_entry_two(88, 0);
    } else if h == 36 {
        lemma_sha256_entry_one(106, 0);
    } else if h == 37 {
        lemma_sha256_entry_one(37, 0);
    } else if h == 38 {
        lemma_sha256_entry_one(125, 0);
    } else if h == 39 {
        lemma_sha256_entry_one(54, 0);
    } else if h == 40 {
        lemma_sha256_entry_one(102, 0);
    } else if h == 41 {
        lemma_sha256_entry_one(94, 0);
    } else if h == 42 {
        lemma_sha256_entry_two(5, 0);
    } else if h == 43 {
        lemma_sha256_entry_one(103, 0);
    } else if h == 44 {
        lemma_sha256_entry_one(85, 0);
    } else if h == 45 {
        lemma_sha256_entry_one(184, 0);
    } else if h == 46 {
        lemma_sha256_entry_one(215, 0);
    } else if h == 47 {
        lemma_sha256_entry_one(99, 0);
    }
}

/// Entries 48 to 63 of `MINI_SHA256_8BIT_PREIMAGES` are preimages of their index.
proof fn lemma_mini_sha256_preimages_hash_back_3(h: u8)
    requires
        48 <= h < 64,
    ensures
        sha256_entry_hash(MINI_SHA256_8BIT_PREIMAGES[h as int]) == h,
{
    sha256_entries_hash_back();
    if h == 48 {
        lemma_sha256_entry_one(110, 0);
    } else if h == 49 {
        lemma_sha256_entry_two(231, 0);
    } else if h == 50 {
        lemma_sha256_entry_two(23, 0);
    } else if h == 51 {
        lemma_sha256_entry_one(171, 0);
    } else if h == 52 {
        lemma_sha256_entry_one(46, 0);
    } else if h == 53 {
        lemma_sha256_entry_one(113, 0);
    } else if h == 54 {
        lemma_sha256_entry_one(147, 0);
    } else if h == 55 {
        lemma_sha256_entry_one(212, 0);
    } else if h == 56 {
        lemma_sha256_entry_two(91, 1);
    } else if h == 57 {
        lemma_sha256_entry_one(109, 0);
    } else if h == 58 {
        lemma_sha256_entry_two(232, 0);
    } else if h == 59 {
        lemma_sha256_entry_one(88, 0);
    } else if h == 60 {
        lemma_sha256_entry_one(234, 0);
    } else if h == 61 {
        lemma_sha256_entry_one(30, 0);
    } else if h == 62 {
        lemma_sha256_entry_two(52, 1);
    } else if h == 63 {
        lemma_sha256_entry_two(79, 1);
    }
}

/// Entries 64 to 79 of `MINI_SHA256_8BIT_PREIMAGES` are preimages of their index.
proof fn lemma_mini_sha256_preimages_hash_back_4(h: u8)
    requires
        64 <= h < 80,
    ensures
        sha256_entry_hash(MINI_SHA256_8BIT_PREIMAGES[h as int]) == h,
{
    sha256_entries_hash_back();
    if h == 64 {
        lemma_sha256_entry_one(55, 0);
    } else if h == 65 {
        lemma_sha256_entry_one(86, 0);
    } else if h == 66 {
        lemma_sha256_entry_two(184, 0);
    } else if h == 67 {
        lemma_sha256_entry_one(73, 0);
    } else if h == 68 {
        lemma_sha256_entry_one(72, 0);
    } else if h == 69 {
        lemma_sha256_entry_two(77, 0);
    } else if h == 70 {
        lemma_sha256_entry_one(70, 0);
    } else if h == 71 {
        lemma_sha256_entry_one(92, 0);
    } else if h == 72 {
        lemma_sha256_entry_one(63, 0);
    } else if h == 73 {
        lemma_sha256_entry_two(210, 1);
    } else if h == 74 {
        lemma_sha256_entry_one(194, 0);
    } else if h == 75 {
        lemma_sha256_entry_two(122, 0);
    } else if h == 76 {
        lemma_sha256_entry_one(80, 0);
    } else if h == 77 {
        lemma_sha256_entry_one(71, 0);
    } else if h == 78 {
        lemma_sha256_entry_one(78, 0);
    } else if h == 79 {
        lemma_sha256_entry_one(47, 0);
    }
}

/// Entries 80 to 95 of `MINI_SHA256_8BIT_PREIMAGES` are preimages of their index.
proof fn lemma_mini_sha256_preimages_hash_back_5(h: u8)
    requires
        80 <= h < 96,
    ensures
        sha256_entry_hash(MINI_SHA256_8BIT_PREIMAGES[h as int]) == h,
{
    sha256_entries_hash_back();
    if h == 80 {
        lemma_sha256_entry_two(81, 2);
    } else if h == 81 {
        lemma_sha256_entry_one(188, 0);
    } else if h == 82 {
        lemma_sha256_entry_one(164, 0);
    } else if h == 83 {
        lemma_sha256_entry_one(186, 0);
    } else if h == 84 {
        lemma_sha256_entry_two(54, 1);
    } else if h == 85 {
        lemma_sha256_entry_two(195, 0);
    } else if h == 86 {
        lemma_sha256_entry_two(147, 1);
    } else if h == 87 {
        lemma_sha256_entry_two(49, 0);
    } else if h == 88 {
        lemma_sha256_entry_one(149, 0);
    } else if h == 89 {
        lemma_sha256_entry_one(143, 0);
    } else if h == 90 {
        lemma_sha256_entry_one(112, 0);
    } else if h == 91 {
        lemma_sha256_entry_one(126, 0);
    } else if h == 92 {
        lemma_sha256_entry_two(21, 0);
    } else if h == 93 {
        lemma_sha256_entry_two(179, 1);
    } else if h == 94 {
        lemma_sha256_entry_two(116, 0);
    } else if h == 95 {
        lemma_sha256_entry_one(145, 0);
    }
}

/// Entries 96 to 111 of `MINI_SHA256_8BIT_PREIMAGES` are preimages of their index.
proof fn lemma_mini_sha256_preimages_hash_back_6(h: u8)
    requires
        96 <= h < 112,
    ensures
        sha256_entry_hash(MINI_SHA256_8BIT_PREIMAGES[h as int]) == h,
{
    sha256_entries_hash_back();
    if h == 96 {
        lemma_sha256_entry_one(123, 0);
    } else if h == 97 {
        lemma_sha256_entry_two(173, 0);
    } else if h == 98 {
        lemma_sha256_entry_two(107, 0);
    } else if h == 99 {
        lemma_sha256_entry_one(96, 0);
    } else if h == 100 {
        lemma_sha256_entry_two(84, 0);
    } else if h == 101 {
        lemma_sha256_entry_one(124, 0);
    } else if h == 102 {
        lemma_sha256_entry_one(100, 0);
    } else if h == 103 {
        lemma_sha256_entry_one(39, 0);
    } else if h == 104 {
        lemma_sha256_entry_one(170, 0);
    } else if h == 105 {
        lemma_sha256_entry_two(166, 3);
    } else if h == 106 {
        lemma_sha256_entry_one(31, 0);
    } else if h == 107 {
        lemma_sha256_entry_one(133, 0);
    } else if h == 108 {
        lemma_sha256_entry_one(153, 0);
    } else if h == 109 {
        lemma_sha256_entry_one(105, 0);
    } else if h == 110 {
        lemma_sha256_entry_one(108, 0);
    } else if h == 111 {
        lemma_sha256_entry_two(29, 0);
    }
}

/// Entries 112 to 127 of `MINI_SHA256_8BIT_PREIMAGES` are preimages of their index.
proof fn lemma_mini_sha256_preimages_hash_back_7(h: u8)
    requires
        112 <= h < 128,
    ensures
        sha256_entry_hash(MINI_SHA256_8BIT_PREIMAGES[h as int]) == h,
{
    sha256_entries_hash_back();
    if h == 112 {
        lemma_sha256_entry_one(162, 0);
    } else if h == 113 {
        lemma_sha256_entry_one(101, 0);
    } else if h == 114 {
        lemma_sha256_entry_one(104, 0);
    } else if h == 115 {
        lemma_sha256_entry_one(20, 0);
    } else if h == 116 {
        lemma_sha256_entry_one(25, 0);
    } else if h == 117 {
        lemma_sha256_entry_one(22, 0);
    } else if h == 118 {
        lemma_sha256_entry_one(57, 0);
    } else if h == 119 {
        lemma_sha256_entry_one(24, 0);
    } else if h == 120 {
        lemma_sha256_entry_one(16, 0);
    } else if h == 121 {
        lemma_sha256_entry_one(26, 0);
    } else if h == 122 {
        lemma_sha256_entry_one(181, 0);
    } else if h == 123 {
        lemma_sha256_entry_one(239, 0);
    } else if h == 124 {
        lemma_sha256_entry_one(51, 0);
    } else if h == 125 {
        lemma_sha256_entry_one(165, 0);
    } else if h == 126 {
        lemma_sha256_entry_two(31, 0);
    } else if h == 127 {
        lemma_sha256_entry_one(32, 0);
    }
}

/// Entries 128 to 143 of `MINI_SHA256_8BIT_PREIMAGES` are preimages of their index.
proof fn lemma_mini_sha256_preimages_hash_back_8(h: u8)
    requires
        128 <= h < 144,
    ensures
        sha256_entry_hash(MINI_SHA256_8BIT_PREIMAGES[h as int]) == h,
{
    sha256_entries_hash_back();
    if h == 128 {
        lemma_sha256_entry_one(230, 0);
    } else if h == 129 {
        lemma_sha256_entry_two(226, 0);
    } else if h == 130 {
        lemma_sha256_entry_one(14, 0);
    } else if h == 131 {
        lemma_sha256_entry_one(5, 0);
    } else if h == 132 {
        lemma_sha256_entry_one(255, 0);
    } else if h == 133 {
        lemma_sha256_entry_two(159, 0);
    } else if h == 134 {
        lemma_sha256_entry_one(10, 0);
    } else if h == 135 {
        lemma_sha256_entry_two(120, 2);
    } else if h == 136 {
        lemma_sha256_entry_one(34, 0);
    } else if h == 137 {
        lemma_sha256_entry_one(7, 0);
    } else if h == 138 {
        lemma_sha256_entry_one(6, 0);
    } else if h == 139 {
        lemma_sha256_entry_two(71, 1);
    } else if h == 140 {
        lemma_sha256_entry_one(12, 0);
    } else if h == 141 {
        lemma_sha256_entry_one(252, 0);
    } else if h == 142 {
        lemma_sha256_entry_one(2, 0);
    } else if h == 143 {
        lemma_sha256_entry_two(27, 0);
    }
}

/// Entries 144 to 159 of `MINI_SHA256_8BIT_PREIMAGES` are preimages of their index.
proof fn lemma_mini_sha256_preimages_hash_back_9(h: u8)
    requires
        144 <= h < 160,
    ensures
        sha256_entry_hash(MINI_SHA256_8BIT_PREIMAGES[h as int]) == h,
{
    sha256_entries_hash_back();
    if h == 144 {
        lemma_sha256_entry_one(243, 0);
    } else if h == 145 {
        lemma_sha256_entry_one(18, 0);
    } else if h == 146 {
        lemma_sha256_entry_one(159, 0);
    } else if h == 147 {
        lemma_sha256_entry_two(246, 0);
    } else if h == 148 {
        lemma_sha256_entry_one(179, 0);
    } else if h == 149 {
        lemma_sha256_entry_one(56, 0);
    } else if h == 150 {
        lemma_sha256_entry_one(48, 0);
    } else if h == 151 {
        lemma_sha256_entry_one(250, 0);
    } else if h == 152 {
        lemma_sha256_entry_one(89, 0);
    } else if h == 153 {
        lemma_sha256_entry_one(180, 0);
    } else if h == 154 {
        lemma_sha256_entry_one(1, 0);
    } else if h == 155 {
        lemma_sha256_entry_two(72, 0);
    } else if h == 156 {
        lemma_sha256_entry_one(33, 0);
    } else if h == 157 {
        lemma_sha256_entry_one(64, 0);
    } else if h == 158 {
        lemma_sha256_entry_one(65, 0);
    } else if h == 159 {
        lemma_sha256_entry_one(205, 0);
    }
}

/// Entries 160 to 175 of `MINI_SHA256_8BIT_PREIMAGES` are preimages of their index.
proof fn lemma_mini_sha256_preimages_hash_back_10(h: u8)
    requires
        160 <= h < 176,
    ensures
        sha256_entry_hash(MINI_SHA256_8BIT_PREIMAGES[h as int]) == h,
{
    sha256_entries_hash_back();
    if h == 160 {
        lemma_sha256_entry_two(61, 0);
    } else if h == 161 {
        lemma_sha256_entry_two(96, 0);
    } else if h == 162 {
        lemma_sha256_entry_one(202, 0);
    } else if h == 163 {
        lemma_sha256_entry_one(156, 0);
    } else if h == 164 {
        lemma_sha256_entry_one(213, 0);
    } else if h == 165 {
        lemma_sha256_entry_two(9, 0);
    } else if h == 166 {
        lemma_sha256_entry_one(223, 0);
    } else if h == 167 {
        lemma_sha256_entry_one(17, 0);
    } else if h == 168 {
        lemma_sha256_entry_two(117, 1);
    } else if h == 169 {
        lemma_sha256_entry_one(41, 0);
    } else if h == 170 {
        lemma_sha256_entry_one(219, 0);
    } else if h == 171 {
        lemma_sha256_entry_one(81, 0);
    } else if h == 172 {
        lemma_sha256_entry_one(187, 0);
    } else if h == 173 {
        lemma_sha256_entry_two(154, 1);
    } else if h == 174 {
        lemma_sha256_entry_one(40, 0);
    } else if h == 175 {
        lemma_sha256_entry_one(9, 0);
    }
}

/// Entries 176 to 191 of `MINI_SHA256_8BIT_PREIMAGES` are preimages of their index.
proof fn lemma_mini_sha256_preimages_hash_back_11(h: u8)
    requires
        176 <= h < 192,
    ensures
        sha256_entry_hash(MINI_SHA256_8BIT_PREIMAGES[h as int]) == h,
{
    sha256_entries_hash_back();
    if h == 176 {
        lemma_sha256_entry_one(157, 0);
    } else if h == 177 {
        lemma_sha256_entry_one(195, 0);
    } else if h == 178 {
        lemma_sha256_entry_one(211, 0);
    } else if h == 179 {
        lemma_sha256_entry_two(193, 3);
    } else if h == 180 {
        lemma_sha256_entry_one(208, 0);
    } else if h == 181 {
        lemma_sha256_entry_two(4, 2);
    } else if h == 182 {
        lemma_sha256_entry_one(206, 0);
    } else if h == 183 {
        lemma_sha256_entry_one(175, 0);
    } else if h == 184 {
        lemma_sha256_entry_one(76, 0);
    } else if h == 185 {
        lemma_sha256_entry_one(67, 0);
    } else if h == 186 {
        lemma_sha256_entry_two(35, 1);
    } else if h == 187 {
        lemma_sha256_entry_one(58, 0);
    } else if h == 188 {
        lemma_sha256_entry_one(98, 0);
    } else if h == 189 {
        lemma_sha256_entry_one(207, 0);
    } else if h == 190 {
        lemma_sha256_entry_one(228, 0);
    } else if h == 191 {
        lemma_sha256_entry_one(167, 0);
    }
}

/// Entries 192 to 207 of `MINI_SHA256_8BIT_PREIMAGES` are preimages of their index.
proof fn lemma_mini_sha256_preimages_hash_back_12(h: u8)
    requires
        192 <= h < 208,
    ensures
        sha256_entry_hash(MINI_SHA256_8BIT_PREIMAGES[h as int]) == h,
{
    sha256_entries_hash_back();
    if h == 192 {
        lemma_sha256_entry_one(21, 0);
    } else if h == 193 {
        lemma_sha256_entry_one(237, 0);
    } else if h == 194 {
        lemma_sha256_entry_two(59, 0);
    } else if h == 195 {
        lemma_sha256_entry_two(197, 2);
    } else if h == 196 {
        lemma_sha256_entry_one(59, 0);
    } else if h == 197 {
        lemma_sha256_entry_one(192, 0);
    } else if h == 198 {
        lemma_sha256_entry_one(193, 0);
    } else if h == 199 {
        lemma_sha256_entry_two(68, 1);
    } else if h == 200 {
        lemma_sha256_entry_one(29, 0);
    } else if h == 201 {
        lemma_sha256_entry_one(60, 0);
    } else if h == 202 {
        lemma_sha256_entry_one(61, 0);
    } else if h == 203 {
        lemma_sha256_entry_one(43, 0);
    } else if h == 204 {
        lemma_sha256_entry_two(64, 0);
    } else if h == 205 {
        lemma_sha256_entry_two(1, 3);
    } else if h == 206 {
        lemma_sha256_entry_two(13, 0);
    } else if h == 207 {
        lemma_sha256_entry_one(69, 0);
    }
}

/// Entries 208 to 223 of `MINI_SHA256_8BIT_PREIMAGES` are preimages of their index.
proof fn lemma_mini_sha256_preimages_hash_back_13(h: u8)
    requires
        208 <= h < 224,
    ensures
        sha256_entry_hash(MINI_SHA256_8BIT_PREIMAGES[h as int]) == h,
{
    sha256_entries_hash_back();
    if h == 208 {
        lemma_sha256_entry_one(42, 0);
    } else if h == 209 {
        lemma_sha256_entry_two(207, 0);
    } else if h == 210 {
        lemma_sha256_entry_two(186, 0);
    } else if h == 211 {
        lemma_sha256_entry_two(103, 0);
    } else if h == 212 {
        lemma_sha256_entry_one(4, 0);
    } else if h == 213 {
        lemma_sha256_entry_one(11, 0);
    } else if h == 214 {
        lemma_sha256_entry_one(236, 0);
    } else if h == 215 {
        lemma_sha256_entry_two(62, 1);
    } else if h == 216 {
        lemma_sha256_entry_one(183, 0);
    } else if h == 217 {
        lemma_sha256_entry_one(0, 0);
    } else if h == 218 {
        lemma_sha256_entry_two(4, 1);
    } else if h == 219 {
        lemma_sha256_entry_one(13, 0);
    } else if h == 220 {
        lemma_sha256_entry_one(200, 0);
    } else if h == 221 {
        lemma_sha256_entry_one(3, 0);
    } else if h == 222 {
        lemma_sha256_entry_one(19, 0);
    } else if h == 223 {
        lemma_sha256_entry_one(84, 0);
    }
}

/// Entries 224 to 239 of `MINI_SHA256_8BIT_PREIMAGES` are preimages of their index.
proof fn lemma_mini_sha256_preimages_hash_back_14(h: u8)
    requires
        224 <= h < 240,
    ensures
        sha256_entry_hash(MINI_SHA256_8BIT_PREIMAGES[h as int]) == h,
{
    sha256_entries_hash_back();
    if h == 224 {
        lemma_sha256_entry_one(8, 0);
    } else if h == 225 {
        lemma_sha256_entry_one(15, 0);
    } else if h == 226 {
        lemma_sha256_entry_one(23, 0);
    } else if h == 227 {
        lemma_sha256_entry_one(35, 0);
    } else if h == 228 {
        lemma_sha256_entry_one(166, 0);
    } else if h == 229 {
        lemma_sha256_entry_one(158, 0);
    } else if h == 230 {
        lemma_sha256_entry_one(27, 0);
    } else if h == 231 {
        lemma_sha256_entry_two(70, 0);
    } else if h == 232 {
        lemma_sha256_entry_one(225, 0);
    } else if h == 233 {
        lemma_sha256_entry_one(229, 0);
    } else if h == 234 {
        lemma_sha256_entry_one(232, 0);
    } else if h == 235 {
        lemma_sha256_entry_two(32, 0);
    } else if h == 236 {
        lemma_sha256_entry_two(47, 1);
    } else if h == 237 {
        lemma_sha256_entry_two(56, 1);
    } else if h == 238 {
        lemma_sha256_entry_two(46, 2);
    } else if h == 239 {
        lemma_sha256_entry_one(220, 0);
    }
}

/// Entries 240 to 255 of `MINI_SHA256_8BIT_PREIMAGES` are preimages of their index.
proof fn lemma_mini_sha256_preimages_hash_back_15(h: u8)
    requires
        240 <= h < 256,
    ensures
        sha256_entry_hash(MINI_SHA256_8BIT_PREIMAGES[h as int]) == h,
{
    sha256_entries_hash_back();
    if h == 240 {
        lemma_sha256_entry_one(191, 0);
    } else if h == 241 {
        lemma_sha256_entry_two(20, 0);
    } else if h == 242 {
        lemma_sha256_entry_two(143, 0);
    } else if h == 243 {
        lemma_sha256_entry_one(111, 0);
    } else if h == 244 {
        lemma_sha256_entry_one(119, 0);
    } else if h == 245 {
        lemma_sha256_entry_two(46, 1);
    } else if h == 246 {
        lemma_sha256_entry_two(247, 0);
    } else if h == 247 {
        lemma_sha256_entry_one(107, 0);
    } else if h == 248 {
        lemma_sha256_entry_one(115, 0);
    } else if h == 249 {
        lemma_sha256_entry_one(146, 0);
    } else if h == 250 {
        lemma_sha256_entry_one(142, 0);
    } else if h == 251 {
        lemma_sha256_entry_one(28, 0);
    } else if h == 252 {
        lemma_sha256_entry_two(151, 0);
    } else if h == 253 {
        lemma_sha256_entry_one(116, 0);
    } else if h == 254 {
        lemma_sha256_entry_one(95, 0);
    } else if h == 255 {
        lemma_sha256_entry_two(242, 1);
    }
}

/// Every entry of `MINI_SHA256_8BIT_PREIMAGES` is a preimage of its index under `MiniSHA256`.
pub proof fn lemma_mini_sha256_preimages_hash_back(h: u8)
    ensures
        spec_mini_sha256(preimage_bytes(MINI_SHA256_8BIT_PREIMAGES[h as int])) == h,
{
    reveal(sha256_entry_hash);
    if h < 16 {
        lemma_mini_sha256_preimages_hash_back_0(h);
    } else if h < 32 {
        lemma_mini_sha256_preimages_hash_back_1(h);
    } else if h < 48 {
        lemma_mini_sha256_preimages_hash_back_2(h);
    } else if h < 64 {
        lemma_mini_sha256_preimages_hash_back_3(h);
    } else if h < 80 {
        lemma_mini_sha256_preimages_hash_back_4(h);
    } else if h < 96 {
        lemma_mini_sha256_preimages_hash_back_5(h);
    } else if h < 112 {
        lemma_mini_sha256_preimages_hash_back_6(h);
    } else if h < 128 {
        lemma_mini_sha256_preimages_hash_back_7(h);
    } else if h < 144 {
        lemma_mini_sha256_preimages_hash_back_8(h);
    } else if h < 160 {
        lemma_mini_sha256_preimages_hash_back_9(h);
    } else if h < 176 {
        lemma_mini_sha256_preimages_hash_back_10(h);
    } else if h < 192 {
        lemma_mini_sha256_preimages_hash_back_11(h);
    } else if h < 208 {
        lemma_mini_sha256_preimages_hash_back_12(h);
    } else if h < 224 {
        lemma_mini_sha256_preimages_hash_back_13(h);
    } else if h < 240 {
        lemma_mini_sha256_preimages_hash_back_14(h);
    } else if h < 256 {
        lemma_mini_sha256_preimages_hash_back_15(h);
    }
}

} // verus!
