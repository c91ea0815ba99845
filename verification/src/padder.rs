//! Message padding: append a marker byte, a zero run, and the 8-byte
//! big-endian bit length, so that the padded message is a positive
//! multiple of 64 bytes.

use vstd::prelude::*;
use vstd::arithmetic::div_mod::lemma_fundamental_div_mod;

verus! {

/// The message bit length does not fit in the 8-byte length field.
#[derive(Clone, Copy, Debug, PartialEq, Eq)]
pub struct LengthOverflow;

/// Number of zero bytes between the `0x80` marker and the length field
/// for a message of `len` bytes: the smallest count that brings the
/// total to a multiple of 64.
pub open spec fn zero_run_len(len: nat) -> nat {
    (63 - ((len + 8) % 64)) as nat
}

/// The eight big-endian bytes of a 64-bit value, most significant first.
pub open spec fn be_bytes_of_u64(x: u64) -> Seq<u8> {
    seq![
        (x >> 56u64) as u8,
        (x >> 48u64) as u8,
        (x >> 40u64) as u8,
        (x >> 32u64) as u8,
        (x >> 24u64) as u8,
        (x >> 16u64) as u8,
        (x >> 8u64) as u8,
        x as u8,
    ]
}

/// Whether a message of `len` bytes has a bit length that fits the
/// 64-bit length field.
pub open spec fn bit_length_fits(len: nat) -> bool {
    8 * len <= u64::MAX
}

/// The padded form of a message: the message, the `0x80` marker, a run
/// of zero bytes, and the big-endian bit length.
pub open spec fn spec_pad(m: Seq<u8>) -> Seq<u8>
    recommends
        bit_length_fits(m.len()),
{
    m + seq![0x80u8] + Seq::new(zero_run_len(m.len()), |k: int| 0u8) + be_bytes_of_u64(
        (8 * m.len()) as u64,
    )
}

/// The padded length is the next multiple of 64 with room for the
/// marker and the length field, so it is a positive multiple of 64 and
/// exceeds the message length by at least 9.
pub proof fn lemma_spec_pad_len(m: Seq<u8>)
    ensures
        spec_pad(m).len() == 64 * ((m.len() + 8) / 64 + 1),
        spec_pad(m).len() % 64 == 0,
        spec_pad(m).len() >= m.len() + 9,
        spec_pad(m).len() >= 64,
{
    let l = m.len() as int;
    lemma_fundamental_div_mod(l + 8, 64);
    let q = (l + 8) / 64;
    assert(spec_pad(m).len() == l + 9 + zero_run_len(m.len()));
    assert(spec_pad(m).len() == 64 * q + 64);
    assert((64 * q + 64) % 64 == 0) by {
        assert(64 * q + 64 == 64 * (q + 1));
        assert(64 * (q + 1) % 64 == 0) by (nonlinear_arith);
    }
    assert(q >= 0) by (nonlinear_arith)
        requires
            q == (l + 8) / 64,
            l >= 0,
    ;
    assert(64 * q >= l + 8 - 63) by {
        assert(64 * q == l + 8 - (l + 8) % 64);
    }
}

/// Pads a message for hashing.
///
/// Fails with [`LengthOverflow`] exactly when the bit length of the
/// message does not fit in 64 bits; otherwise the result is the padded
/// message, a positive multiple of 64 bytes long.
pub fn pad(m: &[u8]) -> (r: Result<Vec<u8>, LengthOverflow>)
    ensures
        r is Ok <==> bit_length_fits(m@.len()),
        r is Ok ==> r->Ok_0@ == spec_pad(m@),
        r is Ok ==> r->Ok_0@.len() % 64 == 0 && r->Ok_0@.len() >= m@.len() + 9,
{
    let len = m.len();
    let bit_len: u64 = match (len as u64).checked_mul(8) {
        Some(b) => b,
        None => {
            return Err(LengthOverflow);
        },
    };
    let zeros: usize = (63 - ((len as u64 + 8) % 64)) as usize;
    assert(zeros == zero_run_len(m@.len()));

    let mut padded: Vec<u8> = Vec::new();
    let mut i: usize = 0;
    while i < len
        invariant
            len == m@.len(),
            i <= len,
            padded@ == m@.subrange(0, i as int),
        decreases len - i,
    {
        padded.push(m[i]);
        i += 1;
        proof {
            assert(padded@ =~= m@.subrange(0, i as int));
        }
    }
    proof {
        assert(padded@ =~= m@);
    }

    padded.push(0x80u8);

    let mut j: usize = 0;
    while j < zeros
        invariant
            j <= zeros,
            padded@ == m@ + seq![0x80u8] + Seq::new(j as nat, |k: int| 0u8),
        decreases zeros - j,
    {
        padded.push(0u8);
        j += 1;
        proof {
            assert(padded@ =~= m@ + seq![0x80u8] + Seq::new(j as nat, |k: int| 0u8));
        }
    }

    padded.push((bit_len >> 56u64) as u8);
    padded.push((bit_len >> 48u64) as u8);
    padded.push((bit_len >> 40u64) as u8);
    padded.push((bit_len >> 32u64) as u8);
    padded.push((bit_len >> 24u64) as u8);
    padded.push((bit_len >> 16u64) as u8);
    padded.push((bit_len >> 8u64) as u8);
    padded.push(bit_len as u8);

    proof {
        assert(padded@ =~= spec_pad(m@));
        lemma_spec_pad_len(m@);
    }
    Ok(padded)
}

} // verus!
