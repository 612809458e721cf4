# centaur

Numerical kernels expressed once over packs of registers.

- `src/pack.rs`: `RegisterPack<V, M>`, an owned array of `M` registers with
  indexing, borrowing and index-order `map` / `zip_map`, verified against the
  sequence of its registers.
- `src/kernel.rs`: the dot-product kernel's traversal (common prefix,
  complete blocks, tail) and the loading of one block into a pack of four.
- `app/`: the floating-point dot products (scalar, SSE, NEON backends and the
  `f64` oracle), built on the verified pieces.
