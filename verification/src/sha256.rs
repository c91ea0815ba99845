//! The hashing pipeline: pad the message, then fold every 64-byte block
//! into the running hash state, and read the digest off the final state.

use vstd::prelude::*;
use vstd::arithmetic::div_mod::{lemma_small_mod, lemma_sub_mod_noop};
use crate::compressor::{compress, spec_compress};
use crate::constants::{initial_hash_values, round_constants, spec_initial_hash,
    spec_round_constants};
use crate::digest::{finalize, lemma_spec_digest_len, spec_digest};
use crate::padder::{bit_length_fits, pad, spec_pad, LengthOverflow};
use crate::scheduler::{expand, schedule_seq};
use crate::Hasher;

verus! {

/// The hash state after one block is folded in.
pub open spec fn compress_block(s: Seq<u32>, block: Seq<u8>) -> Seq<u32>
    recommends
        s.len() == 8,
        block.len() == 64,
{
    spec_compress(s, spec_round_constants(), schedule_seq(block))
}

/// The hash state after the first `off` bytes of the padded message,
/// `off` a multiple of 64: the initial hash values with each 64-byte
/// block up to `off` folded in, in order.
pub open spec fn chain_states(padded: Seq<u8>, off: int) -> Seq<u32>
    recommends
        off % 64 == 0,
        0 <= off <= padded.len(),
    decreases off,
{
    if off < 64 {
        spec_initial_hash()
    } else {
        compress_block(chain_states(padded, off - 64), padded.subrange(off - 64, off))
    }
}

/// The SHA-256 digest of a message: the final hash state of the padded
/// message, serialized big-endian.
pub open spec fn spec_sha256(m: Seq<u8>) -> Seq<u8>
    recommends
        bit_length_fits(m.len()),
{
    spec_digest(chain_states(spec_pad(m), spec_pad(m).len() as int))
}

/// Hashing is deterministic: any two digests of the same message are
/// equal, however many times it is hashed.
pub proof fn lemma_one_shot_deterministic(m: Seq<u8>, d1: Seq<u8>, d2: Seq<u8>)
    requires
        d1 == spec_sha256(m),
        d2 == spec_sha256(m),
    ensures
        d1 == d2,
{
}

/// Computes the SHA-256 digest of a message in one call.
///
/// Fails with [`LengthOverflow`] exactly when the message bit length
/// does not fit in 64 bits; otherwise the result is the 32-byte digest.
pub fn one_shot(message: &[u8]) -> (r: Result<Vec<u8>, LengthOverflow>)
    ensures
        r is Ok <==> bit_length_fits(message@.len()),
        r is Ok ==> r->Ok_0@ == spec_sha256(message@) && r->Ok_0@.len() == 32,
{
    let padded = match pad(message) {
        Ok(p) => p,
        Err(e) => {
            return Err(e);
        },
    };
    let k = round_constants();
    let mut hash = initial_hash_values();

    let mut off: usize = 0;
    while off < padded.len()
        invariant
            padded@ == spec_pad(message@),
            padded@.len() % 64 == 0,
            off % 64 == 0,
            off <= padded@.len(),
            k@ == spec_round_constants(),
            hash@ == chain_states(padded@, off as int),
        decreases padded@.len() - off,
    {
        proof {
            lemma_sub_mod_noop(padded@.len() as int, off as int, 64);
            if padded@.len() - off < 64 {
                lemma_small_mod((padded@.len() - off) as nat, 64);
            }
            assert(off + 64 <= padded@.len());
        }
        let mut block: [u8; 64] = [0u8; 64];
        let mut j: usize = 0;
        while j < 64
            invariant
                j <= 64,
                off + 64 <= padded@.len(),
                padded@.len() <= usize::MAX,
                block@.subrange(0, j as int) == padded@.subrange(off as int, off + j),
            decreases 64 - j,
        {
            block[j] = padded[off + j];
            j += 1;
            proof {
                assert(block@.subrange(0, j as int) =~= padded@.subrange(
                    off as int,
                    off + j,
                ));
            }
        }
        proof {
            assert(block@ =~= padded@.subrange(off as int, off + 64));
        }

        let schedule = expand(&block);
        compress(&mut hash, &schedule, &k);
        off += 64;
        proof {
            assert(hash@ == chain_states(padded@, off as int));
        }
    }

    let digest = finalize(hash);
    proof {
        lemma_spec_digest_len(hash@);
        assert(digest@ == spec_sha256(message@));
    }
    let mut out: Vec<u8> = Vec::new();
    let mut i: usize = 0;
    while i < 32
        invariant
            i <= 32,
            out@ == digest@.subrange(0, i as int),
        decreases 32 - i,
    {
        out.push(digest[i]);
        i += 1;
        proof {
            assert(out@ =~= digest@.subrange(0, i as int));
        }
    }
    proof {
        assert(out@ =~= digest@);
    }
    Ok(out)
}

/// This crate's own hash implementation, as a [`Hasher`] so that it can
/// stand beside others in a comparison.
pub struct Sha256;

impl Hasher for Sha256 {
    fn one_shot(message: &[u8]) -> (digest: Vec<u8>) {
        match one_shot(message) {
            Ok(d) => d,
            Err(_) => vstd::pervasive::unreached(),
        }
    }
}

} // verus!
