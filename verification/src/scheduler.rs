//! Message-schedule expansion: one 64-byte block becomes 64 32-bit words,
//! the first 16 read big-endian from the block, the rest mixed from
//! earlier words.

use vstd::prelude::*;
use crate::word::{be_word, rotr, rotate_right_u32, word_from_be_bytes};

verus! {

/// First mixing function over a schedule word.
pub open spec fn small_sigma0(x: u32) -> u32 {
    rotr(x, 7) ^ rotr(x, 18) ^ (x >> 3u32)
}

/// Second mixing function over a schedule word.
pub open spec fn small_sigma1(x: u32) -> u32 {
    rotr(x, 17) ^ rotr(x, 19) ^ (x >> 10u32)
}

/// Word `i` of the schedule of a 64-byte block: a big-endian read for
/// `i < 16`, and a mix of four earlier words after that.
pub open spec fn schedule_word(block: Seq<u8>, i: int) -> u32
    recommends
        block.len() == 64,
        0 <= i < 64,
    decreases i,
{
    if i < 16 {
        be_word(block[4 * i], block[4 * i + 1], block[4 * i + 2], block[4 * i + 3])
    } else {
        schedule_word(block, i - 16).wrapping_add(
            small_sigma0(schedule_word(block, i - 15)),
        ).wrapping_add(schedule_word(block, i - 7)).wrapping_add(
            small_sigma1(schedule_word(block, i - 2)),
        )
    }
}

/// The full 64-word schedule of a block.
pub open spec fn schedule_seq(block: Seq<u8>) -> Seq<u32>
    recommends
        block.len() == 64,
{
    Seq::new(64, |i: int| schedule_word(block, i))
}

/// Expands a 64-byte block into its 64-word message schedule.
pub fn expand(block: &[u8; 64]) -> (w: [u32; 64])
    ensures
        w@ == schedule_seq(block@),
{
    let mut w: [u32; 64] = [0u32; 64];
    let mut i: usize = 0;
    while i < 16
        invariant
            i <= 16,
            forall|j: int| 0 <= j < i ==> w@[j] == schedule_word(block@, j),
        decreases 16 - i,
    {
        w[i] = word_from_be_bytes(block[4 * i], block[4 * i + 1], block[4 * i + 2], block[4 * i
            + 3]);
        i += 1;
    }
    while i < 64
        invariant
            16 <= i <= 64,
            forall|j: int| 0 <= j < i ==> w@[j] == schedule_word(block@, j),
        decreases 64 - i,
    {
        let s0 = rotate_right_u32(w[i - 15], 7) ^ rotate_right_u32(w[i - 15], 18) ^ (w[i - 15]
            >> 3u32);
        let s1 = rotate_right_u32(w[i - 2], 17) ^ rotate_right_u32(w[i - 2], 19) ^ (w[i - 2]
            >> 10u32);
        w[i] = w[i - 16].wrapping_add(s0).wrapping_add(w[i - 7]).wrapping_add(s1);
        i += 1;
    }
    proof {
        assert(w@ =~= schedule_seq(block@));
    }
    w
}

} // verus!
