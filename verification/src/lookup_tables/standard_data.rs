//! Embedded preimage tables of the truncated standard hashes.

use vstd::prelude::*;

verus! {

/// Preimages of the 8-bit truncated MD5 (first digest byte), indexed by hash value `h`.
///
/// Entry `h` is `(len, b0, b1)`: the preimage is `[b0]` when `len == 1` and
/// `[b0, b1]` when `len == 2`. It is the first one-byte input, or failing
/// that the first two-byte input in little-endian order, whose 8-bit MD5 is `h`.
pub const MD5_8BIT_PREIMAGES: [(u8, u8, u8); 256] = [
    (1, 175, 0), (1, 35, 0), (1, 88, 0), (1, 28, 0), (2, 183, 2), (1, 131, 0), (1, 6, 0), (2, 213, 1),
    (2, 144, 0), (2, 59, 0), (1, 157, 0), (1, 37, 0), (1, 97, 0), (1, 67, 0), (2, 11, 0), (1, 93, 0),
    (2, 115, 2), (2, 2, 0), (2, 62, 0), (1, 11, 0), (2, 177, 0), (1, 20, 0), (1, 54, 0), (2, 176, 0),
    (2, 15, 0), (1, 193, 0), (2, 25, 0), (2, 241, 0), (2, 198, 0), (1, 138, 0), (2, 178, 0), (2, 229, 0),
    (1, 172, 0), (1, 90, 0), (2, 18, 1), (2, 105, 0), (1, 171, 0), (1, 104, 0), (1, 43, 0), (2, 219, 0),
    (1, 92, 0), (2, 126, 6), (2, 16, 1), (2, 75, 0), (2, 238, 0), (1, 108, 0), (1, 225, 0), (2, 194, 0),
    (2, 51, 0), (1, 221, 0), (1, 143, 0), (1, 42, 0), (1, 139, 0), (1, 39, 0), (1, 106, 0), (2, 31, 0),
    (2, 109, 0), (2, 116, 1), (1, 69, 0), (1, 173, 0), (1, 150, 0), (2, 185, 1), (2, 58, 0), (2, 123, 1),
    (1, 145, 0), (1, 121, 0), (2, 41, 2), (1, 61, 0), (1, 80, 0), (1, 57, 0), (2, 24, 0), (1, 17, 0),
    (1, 192, 0), (2, 45, 0), (1, 99, 0), (1, 114, 0), (1, 85, 0), (1, 14, 0), (2, 4, 1), (1, 162, 0),
    (1, 46, 0), (1, 64, 0), (1, 60, 0), (2, 160, 1), (2, 44, 1), (1, 1, 0), (1, 199, 0), (1, 89, 0),
    (1, 12, 0), (1, 130, 0), (2, 18, 0), (2, 14, 0), (1, 147, 0), (1, 83, 0), (1, 9, 0), (2, 199, 1),
    (1, 166, 0), (1, 87, 0), (2, 7, 0), (1, 243, 0), (1, 194, 0), (2, 179, 0), (1, 47, 0), (1, 218, 0),
    (1, 10, 0), (1, 77, 0), (1, 184, 0), (1, 16, 0), (1, 38, 0), (1, 153, 0), (2, 229, 1), (1, 109, 0),
    (2, 231, 0), (2, 53, 0), (1, 32, 0), (1, 156, 0), (2, 12, 0), (1, 149, 0), (1, 113, 0), (2, 112, 1),
    (1, 232, 0), (2, 119, 1), (1, 211, 0), (1, 30, 0), (1, 215, 0), (2, 26, 2), (1, 94, 0), (1, 65, 0),
    (1, 70, 0), (1, 91, 0), (1, 100, 0), (1, 96, 0), (1, 23, 0), (1, 58, 0), (1, 3, 0), (2, 54, 1),
    (2, 166, 0), (1, 7, 0), (2, 195, 1), (1, 5, 0), (1, 107, 0), (1, 78, 0), (2, 123, 0), (1, 55, 0),
    (1, 33, 0), (2, 23, 0), (1, 98, 0), (1, 0, 0), (2, 77, 0), (2, 201, 0), (2, 132, 0), (1, 140, 0),
    (1, 219, 0), (1, 178, 0), (1, 160, 0), (2, 44, 4), (2, 200, 0), (1, 66, 0), (1, 2, 0), (1, 170, 0),
    (1, 133, 0), (2, 79, 0), (1, 169, 0), (2, 101, 0), (2, 48, 0), (1, 75, 0), (2, 218, 3), (2, 55, 0),
    (1, 18, 0), (2, 206, 0), (2, 127, 0), (1, 165, 0), (2, 190, 1), (1, 31, 0), (1, 217, 0), (1, 222, 0),
    (2, 22, 1), (1, 34, 0), (1, 103, 0), (2, 53, 1), (2, 167, 0), (2, 42, 0), (1, 155, 0), (2, 229, 4),
    (2, 251, 0), (1, 84, 0), (2, 104, 0), (2, 44, 0), (1, 144, 0), (1, 206, 0), (1, 26, 0), (1, 22, 0),
    (1, 44, 0), (1, 72, 0), (2, 113, 1), (1, 36, 0), (1, 49, 0), (2, 39, 0), (1, 177, 0), (2, 108, 0),
    (1, 50, 0), (1, 56, 0), (2, 130, 0), (1, 24, 0), (2, 140, 1), (1, 129, 0), (1, 62, 0), (1, 48, 0),
    (2, 224, 0), (1, 63, 0), (1, 76, 0), (2, 141, 3), (2, 16, 0), (1, 163, 0), (1, 187, 0), (1, 195, 0),
    (1, 15, 0), (1, 111, 0), (1, 182, 0), (2, 122, 1), (1, 13, 0), (1, 73, 0), (2, 197, 1), (1, 71, 0),
    (2, 255, 0), (1, 82, 0), (1, 8, 0), (1, 116, 0), (1, 53, 0), (1, 25, 0), (1, 205, 0), (2, 211, 0),
    (2, 234, 3), (2, 40, 0), (1, 251, 0), (1, 29, 0), (1, 4, 0), (1, 241, 0), (2, 126, 0), (2, 125, 0),
    (1, 81, 0), (1, 79, 0), (2, 203, 0), (1, 164, 0), (2, 36, 0), (1, 21, 0), (1, 27, 0), (2, 208, 0),
    (2, 206, 2), (1, 123, 0), (2, 232, 0), (1, 122, 0), (1, 238, 0), (2, 149, 1), (2, 148, 0), (1, 19, 0),
];

/// Preimages of the 8-bit truncated SHA-256 (first digest byte), indexed by hash value `h`.
///
/// Entry `h` is `(len, b0, b1)`: the preimage is `[b0]` when `len == 1` and
/// `[b0, b1]` when `len == 2`. It is the first one-byte input, or failing
/// that the first two-byte input in little-endian order, whose 8-bit SHA-256 is `h`.
pub const SHA256_8BIT_PREIMAGES: [(u8, u8, u8); 256] = [
    (2, 23, 0), (1, 10, 0), (1, 123, 0), (2, 160, 4), (1, 115, 0), (2, 12, 4), (1, 154, 0), (1, 141, 0),
    (1, 3, 0), (1, 36, 0), (1, 162, 0), (1, 117, 0), (2, 56, 0), (2, 62, 0), (2, 94, 0), (2, 98, 1),
    (2, 10, 0), (2, 160, 2), (2, 146, 0), (1, 202, 0), (1, 112, 0), (2, 218, 0), (2, 53, 0), (2, 42, 0),
    (1, 89, 0), (1, 57, 0), (2, 96, 2), (1, 110, 0), (2, 130, 0), (1, 204, 0), (2, 98, 0), (1, 29, 0),
    (1, 244, 0), (2, 12, 1), (1, 173, 0), (2, 6, 1), (1, 91, 0), (1, 102, 0), (1, 39, 0), (1, 180, 0),
    (1, 186, 0), (2, 5, 0), (1, 151, 0), (1, 9, 0), (1, 56, 0), (1, 120, 0), (1, 99, 0), (1, 21, 0),
    (1, 226, 0), (2, 71, 0), (1, 40, 0), (1, 35, 0), (2, 154, 0), (1, 158, 0), (1, 32, 0), (2, 34, 0),
    (1, 61, 0), (1, 45, 0), (1, 234, 0), (2, 199, 0), (1, 134, 0), (2, 140, 0), (1, 98, 0), (1, 68, 0),
    (2, 125, 0), (1, 59, 0), (2, 10, 1), (2, 237, 0), (1, 72, 0), (1, 24, 0), (2, 15, 0), (1, 190, 0),
    (2, 110, 0), (1, 198, 0), (1, 17, 0), (1, 1, 0), (1, 118, 0), (1, 14, 0), (1, 51, 0), (1, 136, 0),
    (1, 119, 0), (2, 38, 0), (1, 212, 0), (2, 95, 1), (2, 235, 2), (1, 65, 0), (2, 67, 4), (2, 92, 1),
    (1, 26, 0), (1, 122, 0), (1, 175, 0), (1, 149, 0), (1, 80, 0), (1, 218, 0), (1, 131, 0), (1, 48, 0),
    (2, 97, 1), (2, 245, 2), (1, 62, 0), (2, 178, 0), (2, 93, 3), (1, 111, 0), (2, 177, 0), (1, 6, 0),
    (1, 25, 0), (1, 165, 0), (2, 121, 0), (1, 49, 0), (2, 31, 0), (1, 74, 0), (1, 0, 0), (2, 80, 0),
    (2, 16, 0), (2, 234, 0), (1, 76, 0), (2, 139, 0), (1, 94, 0), (2, 19, 2), (1, 128, 0), (1, 27, 0),
    (1, 243, 0), (1, 55, 0), (1, 126, 0), (2, 225, 5), (1, 22, 0), (1, 145, 0), (2, 67, 0), (2, 49, 3),
    (2, 168, 0), (2, 236, 0), (1, 107, 0), (1, 20, 0), (1, 150, 0), (1, 210, 0), (1, 75, 0), (2, 184, 2),
    (1, 164, 0), (1, 181, 0), (1, 34, 0), (2, 250, 1), (1, 78, 0), (1, 83, 0), (1, 113, 0), (1, 23, 0),
    (2, 129, 0), (2, 50, 0), (2, 118, 0), (2, 141, 0), (1, 142, 0), (1, 38, 0), (1, 30, 0), (2, 125, 2),
    (1, 252, 0), (2, 2, 0), (1, 205, 0), (1, 178, 0), (2, 41, 2), (1, 13, 0), (1, 144, 0), (2, 127, 0),
    (2, 38, 1), (1, 121, 0), (1, 85, 0), (1, 43, 0), (2, 30, 0), (1, 130, 0), (2, 88, 0), (2, 164, 0),
    (1, 73, 0), (1, 69, 0), (1, 104, 0), (1, 19, 0), (1, 108, 0), (2, 47, 0), (1, 195, 0), (1, 216, 0),
    (1, 246, 0), (1, 191, 0), (2, 93, 0), (2, 59, 2), (2, 0, 1), (1, 209, 0), (2, 102, 3), (1, 219, 0),
    (2, 63, 0), (2, 173, 0), (1, 41, 0), (1, 33, 0), (1, 170, 0), (1, 28, 0), (1, 8, 0), (2, 12, 0),
    (1, 133, 0), (1, 160, 0), (2, 71, 1), (1, 64, 0), (1, 79, 0), (1, 16, 0), (2, 91, 3), (2, 175, 0),
    (2, 239, 0), (2, 152, 6), (1, 7, 0), (1, 124, 0), (2, 142, 0), (1, 46, 0), (2, 6, 0), (1, 93, 0),
    (1, 44, 0), (1, 125, 0), (1, 95, 0), (1, 184, 0), (1, 50, 0), (1, 249, 0), (2, 143, 0), (2, 86, 0),
    (2, 44, 0), (2, 17, 0), (1, 60, 0), (1, 2, 0), (1, 15, 0), (2, 25, 1), (1, 86, 0), (1, 66, 0),
    (2, 30, 1), (2, 73, 0), (2, 172, 0), (1, 116, 0), (1, 192, 0), (1, 4, 0), (1, 84, 0), (1, 5, 0),
    (2, 105, 0), (1, 137, 0), (2, 185, 0), (2, 22, 1), (2, 99, 0), (2, 252, 0), (1, 172, 0), (1, 12, 0),
    (1, 225, 0), (2, 59, 0), (1, 18, 0), (1, 237, 0), (1, 176, 0), (2, 13, 0), (1, 70, 0), (2, 146, 3),
    (1, 235, 0), (2, 46, 1), (2, 238, 0), (1, 220, 0), (1, 87, 0), (1, 153, 0), (1, 166, 0), (1, 31, 0),
];

} // verus!
