//! Preimage tables: a map from hash values to one input that produces each,
//! built by enumerating small inputs and keeping the first preimage found.

use std::collections::HashMap;
use std::string::String;
use std::vec::Vec;
use vstd::prelude::*;
use vstd::set_lib::*;
use crate::digests::{
    md5_16bit, md5_8bit, sha256_16bit, sha256_8bit, spec_md5_16bit, spec_md5_8bit,
    spec_sha256_16bit, spec_sha256_8bit,
};
use crate::mini::{mini_md5, mini_sha256, spec_mini_md5, spec_mini_sha256};
use crate::lookup_tables::{
    lemma_mini_md5_preimages_hash_back, lemma_mini_sha256_preimages_hash_back, preimage_bytes,
    MINI_MD5_8BIT_PREIMAGES, MINI_SHA256_8BIT_PREIMAGES,
};
use vstd::arithmetic::div_mod::{lemma_fundamental_div_mod, lemma_mod_multiples_vanish, lemma_small_mod};

verus! {

broadcast use vstd::std_specs::hash::group_hash_axioms;

// ---------------------------------------------------------------------------
// Specification of the tables
// ---------------------------------------------------------------------------

/// The map that enumerating inputs `enc(0), enc(1), ..., enc(n - 1)` builds
/// when each input is stored under its key `key(input)` unless that key
/// already has an input: each reached key maps to its first preimage.
pub open spec fn first_preimages(
    enc: spec_fn(int) -> Seq<u8>,
    key: spec_fn(Seq<u8>) -> u32,
    n: int,
) -> Map<u32, Seq<u8>>
    decreases n,
{
    if n <= 0 {
        Map::empty()
    } else {
        let m = first_preimages(enc, key, n - 1);
        let input = enc(n - 1);
        if m.contains_key(key(input)) {
            m
        } else {
            m.insert(key(input), input)
        }
    }
}

/// The 4 little-endian bytes of `i` (`u32::to_le_bytes` for `0 <= i < 2^32`).
pub open spec fn le_bytes4(i: int) -> Seq<u8> {
    seq![
        (i % 256) as u8,
        ((i / 256) % 256) as u8,
        ((i / 65536) % 256) as u8,
        ((i / 16777216) % 256) as u8,
    ]
}

/// Enumeration of the 4-byte little-endian encodings of `0, 1, 2, ...`.
pub open spec fn le4_inputs() -> spec_fn(int) -> Seq<u8> {
    |i: int| le_bytes4(i)
}

/// Enumeration of the short inputs: the 256 one-byte inputs `[0] .. [255]`,
/// then the 65536 two-byte inputs in the order of their little-endian value.
pub open spec fn short_inputs() -> spec_fn(int) -> Seq<u8> {
    |i: int|
        if i < 256 {
            seq![i as u8]
        } else {
            seq![((i - 256) % 256) as u8, ((i - 256) / 256) as u8]
        }
}

/// Number of short inputs: 256 of one byte and 65536 of two bytes.
pub open spec fn num_short_inputs() -> int {
    65792
}

/// Key of an input in an 8-bit MD5 table.
pub open spec fn md5_8bit_key() -> spec_fn(Seq<u8>) -> u32 {
    |s: Seq<u8>| spec_md5_8bit(s) as u32
}

/// Key of an input in a 16-bit MD5 table.
pub open spec fn md5_16bit_key() -> spec_fn(Seq<u8>) -> u32 {
    |s: Seq<u8>| spec_md5_16bit(s) as u32
}

/// Key of an input in an 8-bit SHA-256 table.
pub open spec fn sha256_8bit_key() -> spec_fn(Seq<u8>) -> u32 {
    |s: Seq<u8>| spec_sha256_8bit(s) as u32
}

/// Key of an input in a 16-bit SHA-256 table.
pub open spec fn sha256_16bit_key() -> spec_fn(Seq<u8>) -> u32 {
    |s: Seq<u8>| spec_sha256_16bit(s) as u32
}

/// Key of an input in a `MiniMD5` table.
pub open spec fn mini_md5_key() -> spec_fn(Seq<u8>) -> u32 {
    |s: Seq<u8>| spec_mini_md5(s) as u32
}

/// Key of an input in a `MiniSHA256` table.
pub open spec fn mini_sha256_key() -> spec_fn(Seq<u8>) -> u32 {
    |s: Seq<u8>| spec_mini_sha256(s) as u32
}

/// Whether `j` is the first position of the enumeration whose input has key `k`.
pub open spec fn is_first_hit(
    enc: spec_fn(int) -> Seq<u8>,
    key: spec_fn(Seq<u8>) -> u32,
    j: int,
    k: u32,
) -> bool {
    &&& 0 <= j
    &&& key(enc(j)) == k
    &&& forall|l: int| 0 <= l < j ==> #[trigger] key(enc(l)) != k
}

/// Every entry of a first-preimage map is a preimage of its key, and the
/// first one in the enumeration; a key is present exactly when some
/// enumerated input hashes to it.
pub proof fn lemma_first_preimages(
    enc: spec_fn(int) -> Seq<u8>,
    key: spec_fn(Seq<u8>) -> u32,
    n: int,
    k: u32,
)
    ensures
        first_preimages(enc, key, n).contains_key(k) <==> exists|j: int|
            0 <= j < n && #[trigger] key(enc(j)) == k,
        first_preimages(enc, key, n).contains_key(k) ==> exists|j: int|
            #![trigger is_first_hit(enc, key, j, k)]
            j < n && is_first_hit(enc, key, j, k) && first_preimages(enc, key, n)[k] == enc(j),
        first_preimages(enc, key, n).contains_key(k) ==> key(first_preimages(enc, key, n)[k])
            == k,
    decreases n,
{
    if n > 0 {
        lemma_first_preimages(enc, key, n - 1, k);
        let m = first_preimages(enc, key, n - 1);
        if m.contains_key(k) {
            let j = choose|j: int|
                #![trigger is_first_hit(enc, key, j, k)]
                j < n - 1 && is_first_hit(enc, key, j, k) && m[k] == enc(j);
            assert(is_first_hit(enc, key, j, k));
            assert(0 <= j < n && key(enc(j)) == k);
        } else if key(enc(n - 1)) == k {
            assert(forall|l: int| 0 <= l < n - 1 ==> #[trigger] key(enc(l)) != k);
            assert(is_first_hit(enc, key, n - 1, k));
        } else {
            if exists|j: int| 0 <= j < n && #[trigger] key(enc(j)) == k {
                let j2 = choose|j: int| 0 <= j < n && #[trigger] key(enc(j)) == k;
                assert(0 <= j2 < n - 1);
            }
        }
    }
}

/// If no input's key reaches `bound`, no key of a first-preimage map does.
pub proof fn lemma_first_preimages_keys_below(
    enc: spec_fn(int) -> Seq<u8>,
    key: spec_fn(Seq<u8>) -> u32,
    n: int,
    bound: int,
)
    requires
        forall|s: Seq<u8>| #[trigger] key(s) < bound,
    ensures
        forall|k: u32| #[trigger] first_preimages(enc, key, n).contains_key(k) ==> k < bound,
{
    assert forall|k: u32| #[trigger] first_preimages(enc, key, n).contains_key(k) implies k
        < bound by {
        lemma_first_preimages(enc, key, n, k);
    }
}

/// Once every key below `bound` has a preimage, and keys never reach
/// `bound`, enumerating further inputs adds nothing.
proof fn lemma_first_preimages_saturated(
    enc: spec_fn(int) -> Seq<u8>,
    key: spec_fn(Seq<u8>) -> u32,
    n: int,
    m: int,
    bound: u32,
)
    requires
        0 <= n <= m,
        forall|s: Seq<u8>| #[trigger] key(s) < bound,
        forall|k: u32| k < bound ==> #[trigger] first_preimages(enc, key, n).contains_key(k),
    ensures
        first_preimages(enc, key, m) == first_preimages(enc, key, n),
    decreases m - n,
{
    if m > n {
        lemma_first_preimages_saturated(enc, key, n, m - 1, bound);
        assert(key(enc(m - 1)) < bound);
    }
}

/// The short input that an embedded table entry stands for is enumerated
/// among the short inputs.
proof fn lemma_entry_is_short_input(entry: (u8, u8, u8))
    ensures
        exists|j: int| 0 <= j < num_short_inputs() && #[trigger] short_inputs()(j)
            == preimage_bytes(entry),
{
    let (len, b0, b1) = entry;
    if len == 1 {
        assert(short_inputs()(b0 as int) =~= preimage_bytes(entry));
    } else {
        let v = b0 as int + 256 * b1 as int;
        lemma_mod_multiples_vanish(b1 as int, b0 as int, 256);
        lemma_small_mod(b0 as nat, 256);
        lemma_fundamental_div_mod(v, 256);
        assert(v / 256 == b1 as int);
        assert(short_inputs()(256 + v) =~= preimage_bytes(entry));
    }
}

/// The `MiniMD5` table built from the short inputs covers every 8-bit value:
/// the embedded table shows a short preimage of each.
pub proof fn lemma_mini_md5_table_complete()
    ensures
        forall|k: u32|
            k < 256 ==> #[trigger] first_preimages(short_inputs(), mini_md5_key(), num_short_inputs()).contains_key(k),
        first_preimages(short_inputs(), mini_md5_key(), num_short_inputs()).len() == 256,
{
    let m = first_preimages(short_inputs(), mini_md5_key(), num_short_inputs());
    assert forall|k: u32| k < 256 implies #[trigger] m.contains_key(k) by {
        let h = k as u8;
        lemma_mini_md5_preimages_hash_back(h);
        lemma_entry_is_short_input(MINI_MD5_8BIT_PREIMAGES[h as int]);
        let j = choose|j: int| 0 <= j < num_short_inputs() && #[trigger] short_inputs()(j)
            == preimage_bytes(MINI_MD5_8BIT_PREIMAGES[h as int]);
        assert(mini_md5_key()(short_inputs()(j)) == k);
        lemma_first_preimages(short_inputs(), mini_md5_key(), num_short_inputs(), k);
    }
    lemma_first_preimages_keys_below(short_inputs(), mini_md5_key(), num_short_inputs(), 256);
    lemma_below_len(256);
    assert(m.dom() =~= below(256));
}

/// The `MiniSHA256` table built from the short inputs covers every 8-bit
/// value: the embedded table shows a short preimage of each.
pub proof fn lemma_mini_sha256_table_complete()
    ensures
        forall|k: u32|
            k < 256 ==> #[trigger] first_preimages(short_inputs(), mini_sha256_key(), num_short_inputs()).contains_key(k),
        first_preimages(short_inputs(), mini_sha256_key(), num_short_inputs()).len() == 256,
{
    let m = first_preimages(short_inputs(), mini_sha256_key(), num_short_inputs());
    assert forall|k: u32| k < 256 implies #[trigger] m.contains_key(k) by {
        let h = k as u8;
        lemma_mini_sha256_preimages_hash_back(h);
        lemma_entry_is_short_input(MINI_SHA256_8BIT_PREIMAGES[h as int]);
        let j = choose|j: int| 0 <= j < num_short_inputs() && #[trigger] short_inputs()(j)
            == preimage_bytes(MINI_SHA256_8BIT_PREIMAGES[h as int]);
        assert(mini_sha256_key()(short_inputs()(j)) == k);
        lemma_first_preimages(short_inputs(), mini_sha256_key(), num_short_inputs(), k);
    }
    lemma_first_preimages_keys_below(short_inputs(), mini_sha256_key(), num_short_inputs(), 256);
    lemma_below_len(256);
    assert(m.dom() =~= below(256));
}

/// The `u32` values below `n`.
spec fn below(n: int) -> Set<u32> {
    Set::new(|k: u32| k < n)
}

proof fn lemma_below_len(n: int)
    requires
        0 <= n <= 0x1_0000_0000,
    ensures
        below(n).finite(),
        below(n).len() == n,
    decreases n,
{
    if n == 0 {
        assert(below(n) =~= Set::empty());
    } else {
        lemma_below_len(n - 1);
        assert(below(n - 1).insert((n - 1) as u32) =~= below(n));
    }
}

/// A set of keys below `n` has at most `n` elements, and has all of them
/// once it has `n`.
proof fn lemma_keys_below(s: Set<u32>, n: int)
    requires
        0 <= n <= 0x1_0000_0000,
        forall|k: u32| #[trigger] s.contains(k) ==> k < n,
    ensures
        s.finite(),
        s.len() <= n,
        s.len() >= n ==> forall|k: u32| k < n ==> #[trigger] s.contains(k),
{
    lemma_below_len(n);
    lemma_len_subset(s, below(n));
    if s.len() >= n {
        assert forall|k: u32| k < n implies #[trigger] s.contains(k) by {
            if !s.contains(k) {
                lemma_len_subset(s, below(n).remove(k));
            }
        }
    }
}

// ---------------------------------------------------------------------------
// The table
// ---------------------------------------------------------------------------

/// A lookup table for inverting a small hash: it maps hash values to one
/// input (a preimage) that produces each.
///
/// Hash functions are not injective, so only one preimage is kept per value:
/// the first one met while enumerating candidate inputs.
#[derive(Debug)]
pub struct HashLookupTable {
    /// Maps each reached hash value to a preimage.
    table: HashMap<u32, Vec<u8>>,
    /// Number of bits in the hash (8 or 16).
    bits: u8,
    /// Name of the hash function, for display.
    hash_name: String,
}

/// The entries of a map of byte vectors, each vector taken as its sequence.
pub open spec fn vec_values(m: Map<u32, Vec<u8>>) -> Map<u32, Seq<u8>> {
    m.map_values(|v: Vec<u8>| v@)
}

impl View for HashLookupTable {
    type V = Map<u32, Seq<u8>>;

    /// The hash values that have a preimage, each with that preimage.
    closed spec fn view(&self) -> Map<u32, Seq<u8>> {
        vec_values(self.table@)
    }
}

/// The number of values of a `bits`-bit hash (8 or 16 bits): `2^bits`.
pub open spec fn hash_range(bits: u8) -> int {
    if bits == 8 {
        256
    } else {
        65536
    }
}

impl HashLookupTable {
    /// The number of bits of the hash this table inverts.
    pub closed spec fn bit_width(&self) -> u8 {
        self.bits
    }

    /// The name of the hash this table inverts.
    pub closed spec fn name(&self) -> Seq<char> {
        self.hash_name@
    }

    /// A table is for an 8- or 16-bit hash, and its keys are values of that hash.
    #[verifier::type_invariant]
    spec fn well_formed(&self) -> bool {
        &&& self.bits == 8 || self.bits == 16
        &&& forall|k: u32| #[trigger]
            self.table@.contains_key(k) ==> k < hash_range(self.bits)
    }
}

/// The hash functions a table can invert.
#[derive(Clone, Copy)]
enum TableHash {
    Md5x8,
    Md5x16,
    Sha256x8,
    Sha256x16,
    MiniMd5,
    MiniSha256,
}

impl TableHash {
    /// The key under which an input is stored.
    spec fn key(self) -> spec_fn(Seq<u8>) -> u32 {
        match self {
            TableHash::Md5x8 => md5_8bit_key(),
            TableHash::Md5x16 => md5_16bit_key(),
            TableHash::Sha256x8 => sha256_8bit_key(),
            TableHash::Sha256x16 => sha256_16bit_key(),
            TableHash::MiniMd5 => mini_md5_key(),
            TableHash::MiniSha256 => mini_sha256_key(),
        }
    }

    /// The number of bits of the hash.
    spec fn bits(self) -> u8 {
        match self {
            TableHash::Md5x16 | TableHash::Sha256x16 => 16,
            _ => 8,
        }
    }

    proof fn lemma_key_in_range(self)
        ensures
            forall|s: Seq<u8>| #[trigger] self.key()(s) < hash_range(self.bits()),
    {
    }

    /// The key of `data`.
    fn key_of(self, data: &[u8]) -> (k: u32)
        ensures
            k == self.key()(data@),
    {
        match self {
            TableHash::Md5x8 => md5_8bit(data) as u32,
            TableHash::Md5x16 => md5_16bit(data) as u32,
            TableHash::Sha256x8 => sha256_8bit(data) as u32,
            TableHash::Sha256x16 => sha256_16bit(data) as u32,
            TableHash::MiniMd5 => mini_md5(data) as u32,
            TableHash::MiniSha256 => mini_sha256(data) as u32,
        }
    }
}

/// Stores `data` under `k` unless `k` already has an entry.
fn insert_first(table: &mut HashMap<u32, Vec<u8>>, k: u32, data: Vec<u8>)
    ensures
        vec_values(final(table)@) == if vec_values(old(table)@).contains_key(k) {
            vec_values(old(table)@)
        } else {
            vec_values(old(table)@).insert(k, data@)
        },
{
    assert(vec_values(table@).dom() =~= table@.dom());
    if !table.contains_key(&k) {
        let ghost before = table@;
        table.insert(k, data);
        assert(vec_values(table@) =~= vec_values(before).insert(k, data@));
    }
}

/// The table built from the 4-byte little-endian encodings of `0 .. count`.
fn fill_le4(hash: TableHash, count: u32) -> (table: HashMap<u32, Vec<u8>>)
    ensures
        vec_values(table@) == first_preimages(le4_inputs(), hash.key(), count as int),
{
    let mut table: HashMap<u32, Vec<u8>> = HashMap::new();
    assert(vec_values(table@) =~= first_preimages(le4_inputs(), hash.key(), 0));
    let mut i: u32 = 0;
    while i < count
        invariant
            i <= count,
            vec_values(table@) == first_preimages(le4_inputs(), hash.key(), i as int),
        decreases count - i,
    {
        let data: Vec<u8> = vec![
            (i % 256) as u8,
            ((i / 256) % 256) as u8,
            ((i / 65536) % 256) as u8,
            ((i / 16777216) % 256) as u8,
        ];
        assert(data@ =~= le4_inputs()(i as int));
        let k = hash.key_of(data.as_slice());
        insert_first(&mut table, k, data);
        i = i + 1;
    }
    table
}

/// The table built from the short inputs: all one-byte inputs, then, while
/// some 8-bit value still lacks a preimage, the two-byte inputs.
fn fill_short(hash: TableHash) -> (table: HashMap<u32, Vec<u8>>)
    requires
        hash.bits() == 8,
    ensures
        vec_values(table@) == first_preimages(short_inputs(), hash.key(), num_short_inputs()),
{
    let ghost enc = short_inputs();
    let ghost key = hash.key();
    proof {
        hash.lemma_key_in_range();
    }
    let mut table: HashMap<u32, Vec<u8>> = HashMap::new();
    assert(vec_values(table@) =~= first_preimages(enc, key, 0));
    let mut i: u32 = 0;
    while i < 256
        invariant
            i <= 256,
            enc == short_inputs(),
            key == hash.key(),
            vec_values(table@) == first_preimages(enc, key, i as int),
        decreases 256 - i,
    {
        let data: Vec<u8> = vec![i as u8];
        assert(data@ =~= enc(i as int));
        let k = hash.key_of(data.as_slice());
        insert_first(&mut table, k, data);
        i = i + 1;
    }
    assert(vec_values(table@).dom() =~= table@.dom());
    if table.len() < 256 {
        let mut j: u32 = 0;
        while j < 65536
            invariant
                j <= 65536,
                enc == short_inputs(),
                key == hash.key(),
                forall|s: Seq<u8>| #[trigger] key(s) < 256,
                vec_values(table@) == first_preimages(enc, key, 256 + j),
            ensures
                vec_values(table@) == first_preimages(enc, key, num_short_inputs()),
            decreases 65536 - j,
        {
            assert(vec_values(table@).dom() =~= table@.dom());
            if table.len() >= 256 {
                proof {
                    let m = first_preimages(enc, key, 256 + j);
                    lemma_first_preimages_keys_below(enc, key, 256 + j, 256);
                    lemma_keys_below(m.dom(), 256);
                    lemma_first_preimages_saturated(enc, key, 256 + j, num_short_inputs(), 256);
                }
                break;
            }
            let data: Vec<u8> = vec![(j % 256) as u8, (j / 256) as u8];
            assert(data@ =~= enc(256 + j));
            let k = hash.key_of(data.as_slice());
            insert_first(&mut table, k, data);
            j = j + 1;
        }
    } else {
        proof {
            let m = first_preimages(enc, key, 256);
            lemma_first_preimages_keys_below(enc, key, 256, 256);
            lemma_keys_below(m.dom(), 256);
            lemma_first_preimages_saturated(enc, key, 256, num_short_inputs(), 256);
        }
    }
    table
}

impl HashLookupTable {
    /// Wraps a filled map as the table of `hash`, named `name`.
    fn from_map(table: HashMap<u32, Vec<u8>>, hash: TableHash, name: &str) -> (t: Self)
        requires
            forall|k: u32| #[trigger] table@.contains_key(k) ==> k < hash_range(hash.bits()),
        ensures
            t@ == vec_values(table@),
            t.bit_width() == hash.bits(),
            t.name() == name@,
    {
        let bits: u8 = match hash {
            TableHash::Md5x16 | TableHash::Sha256x16 => 16,
            _ => 8,
        };
        HashLookupTable { table, bits, hash_name: name.to_owned() }
    }

    /// Builds the table of `hash` over the 4-byte little-endian encodings of
    /// `0 .. count`.
    fn build_le4(hash: TableHash, count: u32, name: &str) -> (t: Self)
        ensures
            t@ == first_preimages(le4_inputs(), hash.key(), count as int),
            t.bit_width() == hash.bits(),
            t.name() == name@,
    {
        let table = fill_le4(hash, count);
        proof {
            hash.lemma_key_in_range();
            lemma_first_preimages_keys_below(
                le4_inputs(),
                hash.key(),
                count as int,
                hash_range(hash.bits()),
            );
            assert(vec_values(table@).dom() =~= table@.dom());
        }
        Self::from_map(table, hash, name)
    }

    /// Builds the table of an 8-bit `hash` over the short inputs.
    fn build_short(hash: TableHash, name: &str) -> (t: Self)
        requires
            hash.bits() == 8,
        ensures
            t@ == first_preimages(short_inputs(), hash.key(), num_short_inputs()),
            t.bit_width() == 8,
            t.name() == name@,
    {
        let table = fill_short(hash);
        proof {
            hash.lemma_key_in_range();
            lemma_first_preimages_keys_below(
                short_inputs(),
                hash.key(),
                num_short_inputs(),
                hash_range(hash.bits()),
            );
            assert(vec_values(table@).dom() =~= table@.dom());
        }
        Self::from_map(table, hash, name)
    }

    /// Create a new lookup table for 8-bit MD5 inversion, from the 4-byte
    /// little-endian encodings of `0 ..= 65535`.
    pub fn new_md5_8bit() -> (t: Self)
        ensures
            t@ == first_preimages(le4_inputs(), md5_8bit_key(), 65536),
            t.bit_width() == 8,
            t.name() == "MD5"@,
    {
        Self::build_le4(TableHash::Md5x8, 65536, "MD5")
    }

    /// Create a new lookup table for 16-bit MD5 inversion, from the 4-byte
    /// little-endian encodings of `0 ..= 2^20 - 1`.
    pub fn new_md5_16bit() -> (t: Self)
        ensures
            t@ == first_preimages(le4_inputs(), md5_16bit_key(), 1048576),
            t.bit_width() == 16,
            t.name() == "MD5"@,
    {
        Self::build_le4(TableHash::Md5x16, 1048576, "MD5")
    }

    /// Create a new lookup table for 8-bit SHA-256 inversion, from the 4-byte
    /// little-endian encodings of `0 ..= 65535`.
    pub fn new_sha256_8bit() -> (t: Self)
        ensures
            t@ == first_preimages(le4_inputs(), sha256_8bit_key(), 65536),
            t.bit_width() == 8,
            t.name() == "SHA-256"@,
    {
        Self::build_le4(TableHash::Sha256x8, 65536, "SHA-256")
    }

    /// Create a new lookup table for 16-bit SHA-256 inversion, from the 4-byte
    /// little-endian encodings of `0 ..= 2^20 - 1`.
    pub fn new_sha256_16bit() -> (t: Self)
        ensures
            t@ == first_preimages(le4_inputs(), sha256_16bit_key(), 1048576),
            t.bit_width() == 16,
            t.name() == "SHA-256"@,
    {
        Self::build_le4(TableHash::Sha256x16, 1048576, "SHA-256")
    }

    /// Create a new lookup table for `MiniMD5` inversion, from the one-byte
    /// inputs and then, while some value lacks a preimage, the two-byte ones.
    pub fn new_mini_md5() -> (t: Self)
        ensures
            t@ == first_preimages(short_inputs(), mini_md5_key(), num_short_inputs()),
            forall|k: u32| k < 256 ==> #[trigger] t@.contains_key(k),
            t@.len() == 256,
            t.bit_width() == 8,
            t.name() == "MiniMD5"@,
    {
        proof {
            lemma_mini_md5_table_complete();
        }
        Self::build_short(TableHash::MiniMd5, "MiniMD5")
    }

    /// Create a new lookup table for `MiniSHA256` inversion, from the one-byte
    /// inputs and then, while some value lacks a preimage, the two-byte ones.
    pub fn new_mini_sha256() -> (t: Self)
        ensures
            t@ == first_preimages(short_inputs(), mini_sha256_key(), num_short_inputs()),
            forall|k: u32| k < 256 ==> #[trigger] t@.contains_key(k),
            t@.len() == 256,
            t.bit_width() == 8,
            t.name() == "MiniSHA256"@,
    {
        proof {
            lemma_mini_sha256_table_complete();
        }
        Self::build_short(TableHash::MiniSha256, "MiniSHA256")
    }

    /// Look up a preimage for the given hash value: `Some` with the stored
    /// preimage when the table has one, `None` otherwise (always `None` for a
    /// value beyond the hash's range).
    pub fn lookup(&self, hash: u32) -> (preimage: Option<&[u8]>)
        ensures
            match preimage {
                Some(p) => self@.contains_key(hash) && p@ == self@[hash],
                None => !self@.contains_key(hash),
            },
            hash >= hash_range(self.bit_width()) ==> preimage is None,
    {
        proof {
            use_type_invariant(self);
        }
        match self.table.get(&hash) {
            Some(v) => Some(v.as_slice()),
            None => None,
        }
    }

    /// Returns the number of bits in the hash (8 or 16).
    pub fn bits(&self) -> (b: u8)
        ensures
            b == self.bit_width(),
            b == 8 || b == 16,
    {
        proof {
            use_type_invariant(self);
        }
        self.bits
    }

    /// Returns the name of the hash function.
    pub fn hash_name(&self) -> (name: &str)
        ensures
            name@ == self.name(),
    {
        self.hash_name.as_str()
    }

    /// Returns the number of hash values that have a preimage in the table;
    /// never more than the number of possible hash values.
    pub fn coverage(&self) -> (n: usize)
        ensures
            n == self@.len(),
            n <= hash_range(self.bit_width()),
    {
        proof {
            use_type_invariant(self);
            assert(vec_values(self.table@).dom() =~= self.table@.dom());
            lemma_keys_below(self.table@.dom(), hash_range(self.bits));
        }
        self.table.len()
    }

    /// Returns the number of possible hash values, `2^bits`.
    pub fn max_hash_values(&self) -> (n: usize)
        ensures
            n == hash_range(self.bit_width()),
    {
        proof {
            use_type_invariant(self);
            assert(1usize << 8u8 == 256usize) by (bit_vector);
            assert(1usize << 16u8 == 65536usize) by (bit_vector);
        }
        1usize << self.bits
    }
}

impl Clone for HashLookupTable {
    /// A copy with the same entries, bit width and name.
    fn clone(&self) -> (copy: Self)
        ensures
            copy@ == self@,
            copy.bit_width() == self.bit_width(),
            copy.name() == self.name(),
    {
        proof {
            use_type_invariant(self);
        }
        HashLookupTable {
            table: self.table.clone(),
            bits: self.bits,
            hash_name: self.hash_name.clone(),
        }
    }
}

} // verus!
