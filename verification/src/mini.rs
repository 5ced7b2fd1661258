//! `MiniMD5` and `MiniSHA256`: hash functions with a native 8-bit output,
//! shaped after MD5 and SHA-256 (several working bytes, round functions,
//! rotations, additions modulo 256). Not cryptographically secure.

use vstd::prelude::*;

verus! {

/// Rotate a byte left by `n` bits, `1 <= n <= 7`.
pub open spec fn rotl8(x: u8, n: u8) -> u8 {
    (x << n) | (x >> ((8 - n) as u8))
}

/// `x.rotate_left(n)` for `1 <= n <= 7`.
pub fn rotate_left8(x: u8, n: u8) -> (r: u8)
    requires
        1 <= n <= 7,
    ensures
        r == rotl8(x, n),
{
    (x << n) | (x >> (8 - n))
}

// ---------------------------------------------------------------------------
// MiniMD5
// ---------------------------------------------------------------------------

/// Constants of `MiniMD5`: `floor(256 * |sin(i)|)` for `i = 1..16`.
pub const MINI_MD5_K: [u8; 16] = [
    212, 232, 35, 195, 245, 71, 164, 253, 103, 219, 228, 14, 122, 175, 239, 48,
];

/// Initial state `(a, b, c, d)` of `MiniMD5`, the top bytes of MD5's.
pub open spec fn mini_md5_init() -> (u8, u8, u8, u8) {
    (0x67u8, 0xefu8, 0x98u8, 0x10u8)
}

/// One MD5-style step on `(a, b, c, d)`: `temp = a + mix + input + k`, then
/// the state becomes `(d, b + rotl(temp, rot), b, c)`.
pub open spec fn mini_md5_step(s: (u8, u8, u8, u8), mix: u8, input: u8, k: u8, rot: u8) -> (
    u8,
    u8,
    u8,
    u8,
) {
    let temp = s.0.wrapping_add(mix).wrapping_add(input).wrapping_add(k);
    (s.3, s.1.wrapping_add(rotl8(temp, rot)), s.1, s.2)
}

/// The four rounds (F, G, H, I) that absorb the byte at position `i`.
pub open spec fn mini_md5_round(s: (u8, u8, u8, u8), byte: u8, i: int) -> (u8, u8, u8, u8) {
    let k_idx = i % 16;
    let f = (s.1 & s.2) | (!s.1 & s.3);
    let s1 = mini_md5_step(s, f, byte, MINI_MD5_K[k_idx], 3);
    let g = (s1.3 & s1.1) | (s1.2 & !s1.3);
    let s2 = mini_md5_step(s1, g, byte ^ 0x5a, MINI_MD5_K[(k_idx + 5) % 16], 5);
    let h = s2.1 ^ s2.2 ^ s2.3;
    let s3 = mini_md5_step(s2, h, rotl8(byte, 4), MINI_MD5_K[(k_idx + 7) % 16], 7);
    let ii = s3.2 ^ (s3.1 | !s3.3);
    mini_md5_step(s3, ii, !byte, MINI_MD5_K[(k_idx + 11) % 16], 2)
}

/// The state after absorbing all of `data`, byte by byte from the front.
pub open spec fn mini_md5_absorb(data: Seq<u8>) -> (u8, u8, u8, u8)
    decreases data.len(),
{
    if data.len() == 0 {
        mini_md5_init()
    } else {
        mini_md5_round(mini_md5_absorb(data.drop_last()), data.last(), data.len() - 1)
    }
}

/// The extra mixing applied to the state when the input is empty, after
/// `n` of its 4 passes.
pub open spec fn mini_md5_empty_mix(s: (u8, u8, u8, u8), n: int) -> (u8, u8, u8, u8)
    decreases n,
{
    if n <= 0 {
        s
    } else {
        let p = mini_md5_empty_mix(s, n - 1);
        let i = n - 1;
        (
            rotl8(p.0.wrapping_add(MINI_MD5_K[i]), 3),
            rotl8(p.1.wrapping_add(MINI_MD5_K[i + 4]), 5),
            rotl8(p.2.wrapping_add(MINI_MD5_K[i + 8]), 7),
            rotl8(p.3.wrapping_add(MINI_MD5_K[i + 12]), 2),
        )
    }
}

/// The final byte of `MiniMD5`: the state bytes folded together with
/// rotations, plus `179 * len` modulo 256.
pub open spec fn mini_md5_finish(s: (u8, u8, u8, u8), len_byte: u8) -> u8 {
    let result = s.0 ^ rotl8(s.1, 2) ^ rotl8(s.2, 4) ^ rotl8(s.3, 6);
    result.wrapping_add(len_byte.wrapping_mul(179))
}

/// The `MiniMD5` hash of `data`.
pub open spec fn spec_mini_md5(data: Seq<u8>) -> u8 {
    let absorbed = mini_md5_absorb(data);
    let s = if data.len() == 0 {
        mini_md5_empty_mix(absorbed, 4)
    } else {
        absorbed
    };
    mini_md5_finish(s, (data.len() % 256) as u8)
}

/// The state `MiniMD5` folds into its result: the absorbed state, mixed
/// four more times when the input is empty.
pub open spec fn mini_md5_final_state(data: Seq<u8>) -> (u8, u8, u8, u8) {
    if data.len() == 0 {
        mini_md5_empty_mix(mini_md5_absorb(data), 4)
    } else {
        mini_md5_absorb(data)
    }
}

/// Absorbing one more byte runs the four rounds on it at its position,
/// which is the number of bytes before it.
pub proof fn lemma_mini_md5_absorb_push(data: Seq<u8>, b: u8)
    ensures
        mini_md5_absorb(data.push(b)) == mini_md5_round(mini_md5_absorb(data), b, data.len() as int),
{
    assert(data.push(b).drop_last() =~= data);
}

/// The length enters `MiniMD5` only at the end, as `179 * (len mod 256)`
/// added modulo 256 to the rotated XOR of the four state bytes, for every
/// length.
pub proof fn lemma_mini_md5_length_term(data: Seq<u8>)
    ensures
        ({
            let s = mini_md5_final_state(data);
            let folded = s.0 ^ rotl8(s.1, 2) ^ rotl8(s.2, 4) ^ rotl8(s.3, 6);
            spec_mini_md5(data) as int == (folded as int + 179 * (data.len() % 256)) % 256
        }),
{
    let s = mini_md5_final_state(data);
    let folded = s.0 ^ rotl8(s.1, 2) ^ rotl8(s.2, 4) ^ rotl8(s.3, 6);
    let l: int = (data.len() % 256) as int;
    let m: int = (l * 179) % 256;
    assert((l as u8).wrapping_mul(179) == m as u8);
    assert(0 <= m < 256);
    assert((folded as int + m) % 256 == (folded as int + 179 * l) % 256) by {
        vstd::arithmetic::div_mod::lemma_add_mod_noop(folded as int, l * 179, 256);
        vstd::arithmetic::div_mod::lemma_mod_twice(l * 179, 256);
        vstd::arithmetic::div_mod::lemma_add_mod_noop(folded as int, m, 256);
        vstd::arithmetic::div_mod::lemma_small_mod(folded as nat, 256);
    }
    if folded as int + m >= 256 {
        vstd::arithmetic::div_mod::lemma_mod_sub_multiples_vanish(folded as int + m, 256);
        vstd::arithmetic::div_mod::lemma_small_mod((folded as int + m - 256) as nat, 256);
    } else {
        vstd::arithmetic::div_mod::lemma_small_mod((folded as int + m) as nat, 256);
    }
}

/// `MiniMD5` of the one-byte input `[b]`, written without sequences.
pub open spec fn mini_md5_of_one(b: u8) -> u8 {
    mini_md5_finish(mini_md5_round(mini_md5_init(), b, 0), 1)
}

/// `MiniMD5` of the two-byte input `[b0, b1]`, written without sequences.
pub open spec fn mini_md5_of_two(b0: u8, b1: u8) -> u8 {
    mini_md5_finish(mini_md5_round(mini_md5_round(mini_md5_init(), b0, 0), b1, 1), 2)
}

/// On one- and two-byte inputs, `MiniMD5` is the sequence-free form.
pub proof fn lemma_mini_md5_short(b0: u8, b1: u8)
    ensures
        spec_mini_md5(seq![b0]) == mini_md5_of_one(b0),
        spec_mini_md5(seq![b0, b1]) == mini_md5_of_two(b0, b1),
{
    assert(seq![b0].drop_last() =~= Seq::<u8>::empty());
    assert(seq![b0, b1].drop_last() =~= seq![b0]);
    assert(mini_md5_absorb(Seq::<u8>::empty()) == mini_md5_init());
    assert(seq![b0].last() == b0 && seq![b0, b1].last() == b1);
    assert(mini_md5_absorb(seq![b0]) == mini_md5_round(mini_md5_init(), b0, 0));
}

/// `MiniMD5`: an 8-bit hash function inspired by MD5's structure.
///
/// Each input byte goes through four rounds with the mixing functions
/// F, G, H and I; an empty input gets four extra passes of mixing; the
/// final byte folds the four state bytes together and adds `179 * len`.
pub fn mini_md5(data: &[u8]) -> (h: u8)
    ensures
        h == spec_mini_md5(data@),
        ({
            let s = mini_md5_final_state(data@);
            let folded = s.0 ^ rotl8(s.1, 2) ^ rotl8(s.2, 4) ^ rotl8(s.3, 6);
            h as int == (folded as int + 179 * (data@.len() % 256)) % 256
        }),
{
    proof {
        lemma_mini_md5_length_term(data@);
    }
    let mut a: u8 = 0x67;
    let mut b: u8 = 0xef;
    let mut c: u8 = 0x98;
    let mut d: u8 = 0x10;
    let n = data.len();
    let mut i: usize = 0;
    while i < n
        invariant
            n == data@.len(),
            i <= n,
            (a, b, c, d) == mini_md5_absorb(data@.take(i as int)),
        decreases n - i,
    {
        let byte = data[i];
        let k_idx = i % 16;

        let f = (b & c) | ((!b) & d);
        let temp = a.wrapping_add(f).wrapping_add(byte).wrapping_add(MINI_MD5_K[k_idx]);
        a = d;
        d = c;
        c = b;
        b = b.wrapping_add(rotate_left8(temp, 3));

        let g = (d & b) | (c & (!d));
        let temp = a.wrapping_add(g).wrapping_add(byte ^ 0x5a).wrapping_add(
            MINI_MD5_K[(k_idx + 5) % 16],
        );
        a = d;
        d = c;
        c = b;
        b = b.wrapping_add(rotate_left8(temp, 5));

        let h = b ^ c ^ d;
        let temp = a.wrapping_add(h).wrapping_add(rotate_left8(byte, 4)).wrapping_add(
            MINI_MD5_K[(k_idx + 7) % 16],
        );
        a = d;
        d = c;
        c = b;
        b = b.wrapping_add(rotate_left8(temp, 7));

        let ii = c ^ (b | (!d));
        let temp = a.wrapping_add(ii).wrapping_add(!byte).wrapping_add(
            MINI_MD5_K[(k_idx + 11) % 16],
        );
        a = d;
        d = c;
        c = b;
        b = b.wrapping_add(rotate_left8(temp, 2));

        assert(data@.take(i + 1).drop_last() =~= data@.take(i as int));
        i = i + 1;
    }
    assert(data@.take(n as int) =~= data@);

    if n == 0 {
        let ghost absorbed = (a, b, c, d);
        let mut j: usize = 0;
        while j < 4
            invariant
                j <= 4,
                (a, b, c, d) == mini_md5_empty_mix(absorbed, j as int),
            decreases 4 - j,
        {
            a = rotate_left8(a.wrapping_add(MINI_MD5_K[j]), 3);
            b = rotate_left8(b.wrapping_add(MINI_MD5_K[j + 4]), 5);
            c = rotate_left8(c.wrapping_add(MINI_MD5_K[j + 8]), 7);
            d = rotate_left8(d.wrapping_add(MINI_MD5_K[j + 12]), 2);
            j = j + 1;
        }
    }

    let len_byte = n as u8;
    assert(len_byte == (n % 256) as u8) by (bit_vector)
        requires
            len_byte == n as u8,
    ;
    let result = a ^ rotate_left8(b, 2) ^ rotate_left8(c, 4) ^ rotate_left8(d, 6);
    result.wrapping_add(len_byte.wrapping_mul(179))
}

// ---------------------------------------------------------------------------
// MiniSHA256
// ---------------------------------------------------------------------------

/// Initial working bytes of `MiniSHA256`: the top bytes of SHA-256's initial
/// hash values (fractional parts of the square roots of the first 8 primes).
pub const MINI_SHA256_H: [u8; 8] = [0x6a, 0xbb, 0x3c, 0xa5, 0x51, 0x9b, 0x1f, 0x5b];

/// Round constants of `MiniSHA256`: the top bytes of SHA-256's first 8 round
/// constants (fractional parts of the cube roots of the first 8 primes).
pub const MINI_SHA256_K: [u8; 8] = [0x42, 0x71, 0xb5, 0xe9, 0x39, 0x59, 0x92, 0xab];

/// The working bytes `(a, b, c, d, e, f, g, h)` of `MiniSHA256`.
pub type Sha8State = (u8, u8, u8, u8, u8, u8, u8, u8);

/// Rotate a byte right by `n` bits, `1 <= n <= 7`.
pub open spec fn rotr8(x: u8, n: u8) -> u8 {
    rotl8(x, (8 - n) as u8)
}

/// Initial working bytes of `MiniSHA256`.
pub open spec fn mini_sha256_init() -> Sha8State {
    (
        MINI_SHA256_H[0],
        MINI_SHA256_H[1],
        MINI_SHA256_H[2],
        MINI_SHA256_H[3],
        MINI_SHA256_H[4],
        MINI_SHA256_H[5],
        MINI_SHA256_H[6],
        MINI_SHA256_H[7],
    )
}

/// One SHA-256-style round absorbing the byte at position `i`: message word
/// `w = byte + k + rotl(i mod 256, 3)`, `temp1 = h + Σ1(e) + Ch(e, f, g) + k + w`,
/// `temp2 = Σ0(a) + Maj(a, b, c)`, then the working bytes shift down with
/// `e = d + temp1` and `a = temp1 + temp2`.
pub open spec fn mini_sha256_round(s: Sha8State, byte: u8, i: int) -> Sha8State {
    let k = MINI_SHA256_K[i % 8];
    let i_byte = (i % 256) as u8;
    let w = byte.wrapping_add(k).wrapping_add(rotl8(i_byte, 3));
    let sigma1 = rotr8(s.4, 2) ^ rotr8(s.4, 4) ^ (s.4 >> 3u8);
    let ch = (s.4 & s.5) ^ (!s.4 & s.6);
    let temp1 = s.7.wrapping_add(sigma1).wrapping_add(ch).wrapping_add(k).wrapping_add(w);
    let sigma0 = rotr8(s.0, 1) ^ rotr8(s.0, 3) ^ (s.0 >> 2u8);
    let maj = (s.0 & s.1) ^ (s.0 & s.2) ^ (s.1 & s.2);
    let temp2 = sigma0.wrapping_add(maj);
    (temp1.wrapping_add(temp2), s.0, s.1, s.2, s.3.wrapping_add(temp1), s.4, s.5, s.6)
}

/// The working bytes after absorbing all of `data`, byte by byte from the front.
pub open spec fn mini_sha256_absorb(data: Seq<u8>) -> Sha8State
    decreases data.len(),
{
    if data.len() == 0 {
        mini_sha256_init()
    } else {
        mini_sha256_round(mini_sha256_absorb(data.drop_last()), data.last(), data.len() - 1)
    }
}

/// The final non-linear mixing of the working bytes and the input length.
pub open spec fn mini_sha256_finish(s: Sha8State, len_byte: u8) -> u8 {
    let r0 = s.0 ^ rotl8(s.1, 1) ^ rotl8(s.2, 2) ^ rotl8(s.3, 3);
    let r1 = r0 ^ (rotl8(s.4, 4) ^ rotl8(s.5, 5) ^ rotl8(s.6, 6) ^ rotl8(s.7, 7));
    let r2 = r1.wrapping_add(s.0.wrapping_mul(3));
    let r3 = r2 ^ s.1.wrapping_mul(5);
    let r4 = r3.wrapping_add(s.2.wrapping_mul(7));
    let r5 = r4 ^ s.3.wrapping_mul(11);
    let r6 = r5.wrapping_add(s.4.wrapping_mul(13));
    let r7 = r6 ^ s.5.wrapping_mul(17);
    let r8 = r7.wrapping_add(s.6.wrapping_mul(19));
    let r9 = r8 ^ s.7.wrapping_mul(23);
    r9.wrapping_add(len_byte.wrapping_mul(179))
}

/// The `MiniSHA256` hash of `data`.
pub open spec fn spec_mini_sha256(data: Seq<u8>) -> u8 {
    let absorbed = mini_sha256_absorb(data);
    let s = if data.len() == 0 {
        (
            absorbed.0.wrapping_add(MINI_SHA256_K[0]),
            absorbed.1,
            absorbed.2,
            absorbed.3,
            absorbed.4,
            absorbed.5,
            absorbed.6,
            absorbed.7,
        )
    } else {
        absorbed
    };
    mini_sha256_finish(s, (data.len() % 256) as u8)
}

/// The working bytes `MiniSHA256` finishes from: the absorbed ones, with the
/// first round constant added to `a` when the input is empty.
pub open spec fn mini_sha256_final_state(data: Seq<u8>) -> Sha8State {
    let absorbed = mini_sha256_absorb(data);
    if data.len() == 0 {
        (
            absorbed.0.wrapping_add(MINI_SHA256_K[0]),
            absorbed.1,
            absorbed.2,
            absorbed.3,
            absorbed.4,
            absorbed.5,
            absorbed.6,
            absorbed.7,
        )
    } else {
        absorbed
    }
}

/// Absorbing one more byte runs one round on it at its position, which is
/// the number of bytes before it.
pub proof fn lemma_mini_sha256_absorb_push(data: Seq<u8>, b: u8)
    ensures
        mini_sha256_absorb(data.push(b)) == mini_sha256_round(
            mini_sha256_absorb(data),
            b,
            data.len() as int,
        ),
{
    assert(data.push(b).drop_last() =~= data);
}

/// The position of a byte enters its round through `rotl(i mod 256, 3)` in
/// the message word: the round at position `i + 8` (same round constant)
/// is the round at position `i` on the byte shifted by
/// `rotl((i + 8) mod 256, 3) - rotl(i mod 256, 3)`, modulo 256.
pub proof fn lemma_mini_sha256_position_byte(s: Sha8State, byte: u8, i: int)
    requires
        0 <= i,
    ensures
        mini_sha256_round(s, byte, i + 8) == mini_sha256_round(
            s,
            byte.wrapping_add(rotl8(((i + 8) % 256) as u8, 3)).wrapping_sub(
                rotl8((i % 256) as u8, 3),
            ),
            i,
        ),
{
    assert((i + 8) % 8 == i % 8);
}

/// The length enters `MiniSHA256` only at the end, as `179 * (len mod 256)`
/// added modulo 256 to the mixing of the working bytes, for every length.
pub proof fn lemma_mini_sha256_length_term(data: Seq<u8>)
    ensures
        spec_mini_sha256(data) as int == (mini_sha256_finish(mini_sha256_final_state(data), 0) as int
            + 179 * (data.len() % 256)) % 256,
{
    let r = mini_sha256_finish(mini_sha256_final_state(data), 0);
    let l: int = (data.len() % 256) as int;
    let m: int = (l * 179) % 256;
    assert((l as u8).wrapping_mul(179) == m as u8);
    assert((0u8).wrapping_mul(179) == 0u8);
    assert((r as int + m) % 256 == (r as int + 179 * l) % 256) by {
        vstd::arithmetic::div_mod::lemma_add_mod_noop(r as int, l * 179, 256);
        vstd::arithmetic::div_mod::lemma_mod_twice(l * 179, 256);
        vstd::arithmetic::div_mod::lemma_add_mod_noop(r as int, m, 256);
        vstd::arithmetic::div_mod::lemma_small_mod(r as nat, 256);
    }
    if r as int + m >= 256 {
        vstd::arithmetic::div_mod::lemma_mod_sub_multiples_vanish(r as int + m, 256);
        vstd::arithmetic::div_mod::lemma_small_mod((r as int + m - 256) as nat, 256);
    } else {
        vstd::arithmetic::div_mod::lemma_small_mod((r as int + m) as nat, 256);
    }
}

/// `MiniSHA256` of the one-byte input `[b]`, written without sequences.
pub open spec fn mini_sha256_of_one(b: u8) -> u8 {
    mini_sha256_finish(mini_sha256_round(mini_sha256_init(), b, 0), 1)
}

/// `MiniSHA256` of the two-byte input `[b0, b1]`, written without sequences.
pub open spec fn mini_sha256_of_two(b0: u8, b1: u8) -> u8 {
    mini_sha256_finish(mini_sha256_round(mini_sha256_round(mini_sha256_init(), b0, 0), b1, 1), 2)
}

/// On one- and two-byte inputs, `MiniSHA256` is the sequence-free form.
pub proof fn lemma_mini_sha256_short(b0: u8, b1: u8)
    ensures
        spec_mini_sha256(seq![b0]) == mini_sha256_of_one(b0),
        spec_mini_sha256(seq![b0, b1]) == mini_sha256_of_two(b0, b1),
{
    assert(seq![b0].drop_last() =~= Seq::<u8>::empty());
    assert(seq![b0, b1].drop_last() =~= seq![b0]);
    assert(mini_sha256_absorb(Seq::<u8>::empty()) == mini_sha256_init());
    assert(seq![b0].last() == b0 && seq![b0, b1].last() == b1);
    assert(mini_sha256_absorb(seq![b0]) == mini_sha256_round(mini_sha256_init(), b0, 0));
}

/// `MiniSHA256`: an 8-bit hash function inspired by SHA-256's structure.
///
/// Eight working bytes go through one SHA-256-style round per input byte
/// (Σ0, Σ1, Ch, Maj, a small message schedule); an empty input gets one
/// extra round constant; the final byte mixes all working bytes with
/// rotations, XOR and prime multipliers, and adds `179 * len`.
pub fn mini_sha256(data: &[u8]) -> (h8: u8)
    ensures
        h8 == spec_mini_sha256(data@),
        h8 as int == (mini_sha256_finish(mini_sha256_final_state(data@), 0) as int + 179 * (
        data@.len() % 256)) % 256,
{
    proof {
        lemma_mini_sha256_length_term(data@);
    }
    let mut a = MINI_SHA256_H[0];
    let mut b = MINI_SHA256_H[1];
    let mut c = MINI_SHA256_H[2];
    let mut d = MINI_SHA256_H[3];
    let mut e = MINI_SHA256_H[4];
    let mut f = MINI_SHA256_H[5];
    let mut g = MINI_SHA256_H[6];
    let mut h = MINI_SHA256_H[7];
    let n = data.len();
    let mut i: usize = 0;
    while i < n
        invariant
            n == data@.len(),
            i <= n,
            (a, b, c, d, e, f, g, h) == mini_sha256_absorb(data@.take(i as int)),
        decreases n - i,
    {
        let byte = data[i];
        let k = MINI_SHA256_K[i % 8];
        let i_byte = i as u8;
        assert(i_byte == (i % 256) as u8) by (bit_vector)
            requires
                i_byte == i as u8,
        ;
        let w = byte.wrapping_add(k).wrapping_add(rotate_left8(i_byte, 3));

        let sigma1 = rotate_left8(e, 6) ^ rotate_left8(e, 4) ^ (e >> 3u8);
        let ch = (e & f) ^ ((!e) & g);
        let temp1 = h.wrapping_add(sigma1).wrapping_add(ch).wrapping_add(k).wrapping_add(w);

        let sigma0 = rotate_left8(a, 7) ^ rotate_left8(a, 5) ^ (a >> 2u8);
        let maj = (a & b) ^ (a & c) ^ (b & c);
        let temp2 = sigma0.wrapping_add(maj);

        h = g;
        g = f;
        f = e;
        e = d.wrapping_add(temp1);
        d = c;
        c = b;
        b = a;
        a = temp1.wrapping_add(temp2);

        assert(data@.take(i + 1).drop_last() =~= data@.take(i as int));
        i = i + 1;
    }
    assert(data@.take(n as int) =~= data@);

    if n == 0 {
        a = a.wrapping_add(MINI_SHA256_K[0]);
    }

    let len_byte = n as u8;
    assert(len_byte == (n % 256) as u8) by (bit_vector)
        requires
            len_byte == n as u8,
    ;
    let mut result = a ^ rotate_left8(b, 1) ^ rotate_left8(c, 2) ^ rotate_left8(d, 3);
    result = result ^ (rotate_left8(e, 4) ^ rotate_left8(f, 5) ^ rotate_left8(g, 6)
        ^ rotate_left8(h, 7));
    result = result.wrapping_add(a.wrapping_mul(3));
    result = result ^ b.wrapping_mul(5);
    result = result.wrapping_add(c.wrapping_mul(7));
    result = result ^ d.wrapping_mul(11);
    result = result.wrapping_add(e.wrapping_mul(13));
    result = result ^ f.wrapping_mul(17);
    result = result.wrapping_add(g.wrapping_mul(19));
    result = result ^ h.wrapping_mul(23);
    result.wrapping_add(len_byte.wrapping_mul(179))
}

} // verus!
