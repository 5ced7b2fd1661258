//! The toy hash `h(x) = (7x + 3) mod 101` and its inverse
//! `h⁻¹(y) = 29(y - 3) mod 101` (29 is the inverse of 7 modulo 101).

use vstd::prelude::*;
use vstd::arithmetic::div_mod::*;

verus! {

/// Modulus of the toy hash; a prime, so the hash is a bijection on `[0, 100]`.
pub const SIMPLE_MOD: i32 = 101;

/// Inverse of 7 modulo 101: `7 * 29 = 203 = 2 * 101 + 1`.
const INV_7: i32 = 29;

/// `(7x + 3) mod 101`, with the Euclidean (never negative) remainder.
pub open spec fn spec_simple_hash(x: int) -> int {
    (7 * x + 3) % 101
}

/// `29(y - 3) mod 101`, with the Euclidean (never negative) remainder.
pub open spec fn spec_inverse_simple_hash(y: int) -> int {
    (29 * (y - 3)) % 101
}

/// Simple toy hash function: `h(x) = (7x + 3) mod 101`.
///
/// The result always lies in `[0, 100]`. The intermediate `7x + 3` must fit
/// in an `i32`, as in the unchecked arithmetic it is computed with.
pub fn simple_hash(x: i32) -> (h: i32)
    requires
        i32::MIN <= 7 * x + 3 <= i32::MAX,
    ensures
        h == spec_simple_hash(x as int),
        0 <= h < SIMPLE_MOD,
{
    let v: i32 = 7 * x + 3;
    v.checked_rem_euclid(SIMPLE_MOD).unwrap()
}

/// Inverse of the simple hash on its first period: `29(y - 3) mod 101`.
///
/// The intermediate `29(y - 3)` must fit in an `i32`.
pub fn inverse_simple_hash(y: i32) -> (x: i32)
    requires
        i32::MIN <= 29 * (y - 3) <= i32::MAX,
    ensures
        x == spec_inverse_simple_hash(y as int),
        0 <= x < SIMPLE_MOD,
{
    let v: i32 = INV_7 * (y - 3);
    v.checked_rem_euclid(SIMPLE_MOD).unwrap()
}

/// The inverse undoes the hash: `h⁻¹(h(x)) = x mod 101` for every integer `x`,
/// so `h⁻¹(h(x)) = x` on `[0, 100]`.
pub proof fn lemma_inverse_undoes_hash(x: int)
    ensures
        spec_inverse_simple_hash(spec_simple_hash(x)) == x % 101,
        0 <= x < 101 ==> spec_inverse_simple_hash(spec_simple_hash(x)) == x,
{
    let v = 7 * x + 3;
    lemma_fundamental_div_mod(v, 101);
    let q = v / 101;
    let r = v % 101;
    assert(29 * (r - 3) == 101 * (2 * x - 29 * q) + x);
    lemma_mod_multiples_vanish(2 * x - 29 * q, x, 101);
    if 0 <= x < 101 {
        lemma_small_mod(x as nat, 101);
    }
}

/// The hash undoes the inverse: `h(h⁻¹(y)) = y mod 101` for every integer `y`,
/// so `h(h⁻¹(y)) = y` on `[0, 100]`.
pub proof fn lemma_hash_undoes_inverse(y: int)
    ensures
        spec_simple_hash(spec_inverse_simple_hash(y)) == y % 101,
        0 <= y < 101 ==> spec_simple_hash(spec_inverse_simple_hash(y)) == y,
{
    let v = 29 * (y - 3);
    lemma_fundamental_div_mod(v, 101);
    let q = v / 101;
    let r = v % 101;
    assert(7 * r + 3 == 101 * (2 * y - 6 - 7 * q) + y);
    lemma_mod_multiples_vanish(2 * y - 6 - 7 * q, y, 101);
    if 0 <= y < 101 {
        lemma_small_mod(y as nat, 101);
    }
}

/// The hash is a bijection on `[0, 100]`: it maps that interval into itself,
/// distinct inputs give distinct outputs, and every value in it is reached.
pub proof fn lemma_simple_hash_bijective(x1: int, x2: int, y: int)
    requires
        0 <= x1 < 101,
        0 <= x2 < 101,
        0 <= y < 101,
    ensures
        0 <= spec_simple_hash(x1) < 101,
        spec_simple_hash(x1) == spec_simple_hash(x2) ==> x1 == x2,
        0 <= spec_inverse_simple_hash(y) < 101,
        spec_simple_hash(spec_inverse_simple_hash(y)) == y,
{
    lemma_inverse_undoes_hash(x1);
    lemma_inverse_undoes_hash(x2);
    lemma_hash_undoes_inverse(y);
}

} // verus!
