//! Digest assembly: the final 8-word hash state serialized as 32
//! big-endian bytes.

use vstd::prelude::*;
use crate::word::be_bytes_of_word;

verus! {

/// The big-endian bytes of the first `n` words of a state, concatenated.
pub open spec fn word_bytes_prefix(s: Seq<u32>, n: int) -> Seq<u8>
    recommends
        0 <= n <= s.len(),
    decreases n,
{
    if n <= 0 {
        Seq::empty()
    } else {
        word_bytes_prefix(s, n - 1) + be_bytes_of_word(s[n - 1])
    }
}

/// The 32-byte digest read off an 8-word hash state.
pub open spec fn spec_digest(s: Seq<u32>) -> Seq<u8>
    recommends
        s.len() == 8,
{
    word_bytes_prefix(s, 8)
}

/// A digest is always 32 bytes long.
pub proof fn lemma_spec_digest_len(s: Seq<u32>)
    ensures
        spec_digest(s).len() == 32,
{
    assert forall|n: int| 0 <= n <= 8 implies word_bytes_prefix(s, n).len() == 4 * n by {
        lemma_word_bytes_prefix_len(s, n);
    }
}

proof fn lemma_word_bytes_prefix_len(s: Seq<u32>, n: int)
    requires
        0 <= n,
    ensures
        word_bytes_prefix(s, n).len() == 4 * n,
    decreases n,
{
    if n > 0 {
        lemma_word_bytes_prefix_len(s, n - 1);
    }
}

/// Serializes the final hash state as the 32-byte digest.
pub fn finalize(state: [u32; 8]) -> (digest: [u8; 32])
    ensures
        digest@ == spec_digest(state@),
{
    let mut out: [u8; 32] = [0u8; 32];
    let mut i: usize = 0;
    while i < 8
        invariant
            i <= 8,
            out@.subrange(0, 4 * i as int) == word_bytes_prefix(state@, i as int),
        decreases 8 - i,
    {
        let x = state[i];
        out[4 * i] = (x >> 24u32) as u8;
        out[4 * i + 1] = (x >> 16u32) as u8;
        out[4 * i + 2] = (x >> 8u32) as u8;
        out[4 * i + 3] = x as u8;
        i += 1;
        proof {
            assert(out@.subrange(0, 4 * i as int) =~= word_bytes_prefix(state@, i as int));
        }
    }
    proof {
        assert(out@ =~= word_bytes_prefix(state@, 8));
    }
    out
}

} // verus!
