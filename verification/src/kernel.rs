//! Shared traversal of the dot-product kernel.
//!
//! The kernel owns the common-prefix and tail traversal: the two inputs are
//! cut to their common prefix, the prefix is consumed in complete blocks of
//! `block_len` values, and the final one to `block_len - 1` values form a
//! tail that is handled one element at a time. A register backend supplies
//! the meaning of one block; this module supplies where the blocks lie and
//! how one block of the scalar backend becomes a pack of four registers.

use vstd::prelude::*;
use crate::pack::RegisterPack;

verus! {

/// Where the blocked traversal of two inputs stops.
///
/// `len` is the length of the common prefix. The complete blocks cover
/// `[0, blocks_end)`; the tail is `[blocks_end, len)`.
#[derive(Clone, Copy, Debug, PartialEq, Eq)]
pub struct BlockSplit {
    pub len: usize,
    pub blocks_end: usize,
}

/// The smaller of two lengths.
pub open spec fn min_len(a: int, b: int) -> int {
    if a <= b { a } else { b }
}

/// `split` is the traversal of inputs of lengths `a_len` and `b_len` in
/// blocks of `block_len`: the common prefix, cut at the last complete block.
pub open spec fn is_block_split(split: BlockSplit, a_len: int, b_len: int, block_len: int) -> bool {
    &&& split.len == min_len(a_len, b_len)
    &&& split.blocks_end <= split.len
    &&& (split.blocks_end as int) % block_len == 0
    &&& split.len - split.blocks_end < block_len
}

/// The first index of block number `k`.
pub open spec fn block_start(k: int, block_len: int) -> int {
    k * block_len
}

/// Split the common prefix of two inputs into complete blocks and a tail.
pub fn common_prefix_blocks(a_len: usize, b_len: usize, block_len: usize) -> (split: BlockSplit)
    requires
        block_len > 0,
    ensures
        is_block_split(split, a_len as int, b_len as int, block_len as int),
{
    let len = if a_len <= b_len { a_len } else { b_len };
    let tail = len % block_len;
    proof {
        let l = len as int;
        let b = block_len as int;
        vstd::arithmetic::div_mod::lemma_fundamental_div_mod(l, b);
        vstd::arithmetic::div_mod::lemma_mod_multiples_basic(l / b, b);
        assert((l / b) * b == b * (l / b)) by (nonlinear_arith);
    }
    BlockSplit { len, blocks_end: len - tail }
}

/// Every index before the end of the complete blocks lies in exactly one
/// block, the one numbered `i / block_len`, and that block ends no later than
/// the blocks do.
pub proof fn lemma_block_of_index(split: BlockSplit, a_len: int, b_len: int, block_len: int, i: int)
    requires
        block_len > 0,
        is_block_split(split, a_len, b_len, block_len),
        0 <= i < split.blocks_end,
    ensures
        (i / block_len) * block_len <= i < (i / block_len) * block_len + block_len,
        (i / block_len) * block_len + block_len <= split.blocks_end,
        forall|k: int|
            0 <= k && #[trigger] block_start(k, block_len) <= i < block_start(k, block_len) + block_len
                ==> k == i / block_len,
{
    let q = i / block_len;
    let e = split.blocks_end as int;
    assert(q * block_len <= i < q * block_len + block_len) by (nonlinear_arith)
        requires
            block_len > 0,
            q == i / block_len,
            i >= 0,
    ;
    assert(q * block_len + block_len <= e) by (nonlinear_arith)
        requires
            block_len > 0,
            q == i / block_len,
            0 <= i < e,
            e % block_len == 0,
    ;
    assert forall|k: int|
        0 <= k && #[trigger] block_start(k, block_len) <= i < block_start(k, block_len) + block_len
        implies k == q by {
        assert(k == q) by (nonlinear_arith)
            requires
                block_len > 0,
                q * block_len <= i < q * block_len + block_len,
                k * block_len <= i < k * block_len + block_len,
        ;
    }
}

/// Load four scalar registers from one complete block.
///
/// The block must hold at least four values; the pack holds its first four,
/// in order.
pub fn load_pack<T: Copy>(input: &[T]) -> (pack: RegisterPack<T, 4>)
    requires
        input@.len() >= 4,
    ensures
        pack@ == input@.take(4),
{
    let pack = RegisterPack::new([input[0], input[1], input[2], input[3]]);
    assert(pack@ =~= input@.take(4));
    pack
}

} // verus!
