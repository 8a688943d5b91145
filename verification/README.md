# lever_runner_wasm

Intent-to-command matching for the browser: an intent string is answered by a
three-gate pipeline over a database of intent/command pairs.

1. Gate 1 — the first entry whose intent has the same BLAKE2b-128 hash.
2. Gate 2 — the first entry with the highest embedding similarity above 0.75.
3. Gate 3 — a keyword table, or an `echo` reporting the intent as unknown.

Layout:

- `src/` — the verified library (Verus):
  - `hashing.rs` — BLAKE2b-128 (through the `blake2` crate) and hex text;
  - `text.rs` — characters, ASCII lower-casing, whitespace, substring search;
  - `features.rs` — the integer features of an intent that the embedding is
    computed from (character buckets, bigram buckets, word and byte counts,
    distinct characters, flags);
  - `keywords.rs` — the keyword fallback table;
  - `similarity.rs` — order of similarities given as `f64` bit patterns, the
    choice of gate 2 and the ranking of a vector search;
  - `db.rs` — the command database (teach, load, export, clear, count, seed);
  - `pipeline.rs` — the three-gate pipeline and the search over the database.
- `app/` — the WebAssembly front: the global database, the floating-point
  embedding and cosine similarity, JSON parsing and output, the clock.
- `tests/` — tests of the library.
