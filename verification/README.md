# hash_inversion

Hash inversion, verified with Verus: a toy modular hash with its exact
inverse, 8- and 16-bit truncations of MD5 and SHA-256, two native 8-bit
hashes (`MiniMD5`, `MiniSHA256`), lookup tables built by enumerating small
inputs, and embedded preimage tables for the 8-bit hashes.

- `src/simple.rs`: `simple_hash`, `inverse_simple_hash` and the proofs that
  they are mutually inverse and bijective on `[0, 100]`.
- `src/digests.rs`: truncated MD5 / SHA-256 over the `md-5` and `sha2`
  crates; the full digests are named, trusted results.
- `src/mini.rs`: `mini_md5`, `mini_sha256`, specified round by round.
- `src/table.rs`: `HashLookupTable`, specified as the map of first
  preimages of an enumeration, with the proof that every entry hashes back
  to its key and that the `MiniMD5` / `MiniSHA256` tables are complete.
- `src/lookup_tables/`: the embedded tables; the entries of the two
  native 8-bit tables are proved, bit by bit, to hash back to their index.
- `app/main.rs`: the demonstration program (printing, percentages).
