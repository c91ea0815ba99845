//! The compression function: 64 rounds of bitwise mixing over 8 working
//! variables, after which the result is added back into the hash state.

use vstd::prelude::*;
use crate::word::{rotr, rotate_right_u32};

verus! {

/// First mixing function over a working variable.
pub open spec fn big_sigma0(x: u32) -> u32 {
    rotr(x, 2) ^ rotr(x, 13) ^ rotr(x, 22)
}

/// Second mixing function over a working variable.
pub open spec fn big_sigma1(x: u32) -> u32 {
    rotr(x, 6) ^ rotr(x, 11) ^ rotr(x, 25)
}

/// Choice function: each bit of `e` selects the bit of `f` or of `g`.
pub open spec fn ch(e: u32, f: u32, g: u32) -> u32 {
    (e & f) ^ ((!e) & g)
}

/// Majority function over three words, bit by bit.
pub open spec fn maj(a: u32, b: u32, c: u32) -> u32 {
    (a & b) ^ (a & c) ^ (b & c)
}

/// One compression round: the 8 working variables after folding in one
/// round constant and one schedule word.
pub open spec fn round(s: Seq<u32>, ki: u32, wi: u32) -> Seq<u32>
    recommends
        s.len() == 8,
{
    let temp1 = s[7].wrapping_add(big_sigma1(s[4])).wrapping_add(
        ch(s[4], s[5], s[6]),
    ).wrapping_add(ki).wrapping_add(wi);
    let temp2 = big_sigma0(s[0]).wrapping_add(maj(s[0], s[1], s[2]));
    seq![
        temp1.wrapping_add(temp2),
        s[0],
        s[1],
        s[2],
        s[3].wrapping_add(temp1),
        s[4],
        s[5],
        s[6],
    ]
}

/// The working variables after the first `n` rounds, starting from `s`.
pub open spec fn rounds(s: Seq<u32>, ks: Seq<u32>, ws: Seq<u32>, n: int) -> Seq<u32>
    recommends
        s.len() == 8,
        ks.len() == 64,
        ws.len() == 64,
        0 <= n <= 64,
    decreases n,
{
    if n <= 0 {
        s
    } else {
        round(rounds(s, ks, ws, n - 1), ks[n - 1], ws[n - 1])
    }
}

/// Element-wise wrap-around sum of two 8-word states.
pub open spec fn add_words(x: Seq<u32>, y: Seq<u32>) -> Seq<u32>
    recommends
        x.len() == 8,
        y.len() == 8,
{
    Seq::new(8, |i: int| x[i].wrapping_add(y[i]))
}

/// The hash state after one block: 64 rounds over the schedule, added
/// back into the incoming state.
pub open spec fn spec_compress(s: Seq<u32>, ks: Seq<u32>, ws: Seq<u32>) -> Seq<u32>
    recommends
        s.len() == 8,
        ks.len() == 64,
        ws.len() == 64,
{
    add_words(s, rounds(s, ks, ws, 64))
}

/// Advances the hash state by one block, given the block's schedule and
/// the round constants.
pub fn compress(state: &mut [u32; 8], schedule: &[u32; 64], constants: &[u32; 64])
    ensures
        final (state)@ == spec_compress(old(state)@, constants@, schedule@),
{
    let ghost init = state@;
    let mut a = state[0];
    let mut b = state[1];
    let mut c = state[2];
    let mut d = state[3];
    let mut e = state[4];
    let mut f = state[5];
    let mut g = state[6];
    let mut h = state[7];
    proof {
        assert(seq![a, b, c, d, e, f, g, h] =~= rounds(init, constants@, schedule@, 0));
    }

    let mut i: usize = 0;
    while i < 64
        invariant
            i <= 64,
            seq![a, b, c, d, e, f, g, h] == rounds(init, constants@, schedule@, i as int),
        decreases 64 - i,
    {
        let s1 = rotate_right_u32(e, 6) ^ rotate_right_u32(e, 11) ^ rotate_right_u32(e, 25);
        let ch_ef = (e & f) ^ ((!e) & g);
        let temp1 = h.wrapping_add(s1).wrapping_add(ch_ef).wrapping_add(
            constants[i],
        ).wrapping_add(schedule[i]);
        let s0 = rotate_right_u32(a, 2) ^ rotate_right_u32(a, 13) ^ rotate_right_u32(a, 22);
        let maj_abc = (a & b) ^ (a & c) ^ (b & c);
        let temp2 = s0.wrapping_add(maj_abc);

        h = g;
        g = f;
        f = e;
        e = d.wrapping_add(temp1);
        d = c;
        c = b;
        b = a;
        a = temp1.wrapping_add(temp2);

        i += 1;
        proof {
            assert(seq![a, b, c, d, e, f, g, h] =~= round(
                rounds(init, constants@, schedule@, i - 1),
                constants@[i - 1],
                schedule@[i - 1],
            ));
        }
    }

    state[0] = state[0].wrapping_add(a);
    state[1] = state[1].wrapping_add(b);
    state[2] = state[2].wrapping_add(c);
    state[3] = state[3].wrapping_add(d);
    state[4] = state[4].wrapping_add(e);
    state[5] = state[5].wrapping_add(f);
    state[6] = state[6].wrapping_add(g);
    state[7] = state[7].wrapping_add(h);
    proof {
        assert(state@ =~= add_words(init, rounds(init, constants@, schedule@, 64)));
    }
}

} // verus!
