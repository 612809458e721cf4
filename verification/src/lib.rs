//! SIMD experiments: numerical kernels expressed once over packs of
//! registers.
//!
//! `pack` holds `RegisterPack`, an array of registers with index-order
//! mapping; `kernel` holds the block traversal that the dot-product kernel
//! runs over two inputs, and the loading of one block into a pack.

pub mod kernel;
mod pack;

pub use pack::RegisterPack;
pub use pack::lemma_empty_pack_calls_nothing;
pub use pack::lemma_pack_len;
