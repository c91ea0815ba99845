//! A from-scratch reference implementation of the SHA-256 hash function,
//! with machine-checked proofs that every stage of the pipeline — padding,
//! message-schedule expansion, compression and digest assembly — computes
//! the value its specification describes.

pub mod compressor;
pub mod constants;
pub mod digest;
pub mod inspect;
pub mod padder;
pub mod scheduler;
pub mod sha256;
pub mod word;

use vstd::prelude::*;

verus! {

use crate::padder::bit_length_fits;
use crate::sha256::spec_sha256;

/// Interface for hash implementations, so that several of them can be
/// compared on the same message: an implementor must produce the
/// standard SHA-256 digest of the message.
pub trait Hasher {
    fn one_shot(message: &[u8]) -> (digest: Vec<u8>)
        requires
            bit_length_fits(message@.len()),
        ensures
            digest@ == spec_sha256(message@),
    ;
}

} // verus!
