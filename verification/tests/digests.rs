use rand::RngCore;
use sha2::{Digest, Sha256};
use shoddy_sha::sha256::one_shot;
use shoddy_sha::Hasher;

/// Decodes a hex string into bytes; test inputs only.
fn from_hex(s: &str) -> Vec<u8> {
    let digits: Vec<u32> = s.chars().map(|c| c.to_digit(16).unwrap()).collect();
    digits.chunks(2).map(|p| (p[0] * 16 + p[1]) as u8).collect()
}

#[test]
fn test_output() {
    let message = String::from("hello world").into_bytes();
    let subject = one_shot(&message).unwrap();
    let expected = Sha256::digest(&message);
    assert_eq!(expected.as_slice(), subject.as_slice());

    let mut message = [0u8; 1025];
    rand::thread_rng().fill_bytes(&mut message);
    let subject = one_shot(&message).unwrap();
    let expected = Sha256::digest(&message);
    assert_eq!(expected.as_slice(), subject.as_slice());
}

#[test]
fn test_one_shot_hello_world() {
    let digest = one_shot(b"hello world").unwrap();
    let expected = from_hex("b94d27b9934d3e08a52e52d7da7dabfac484efe37a5380ee9088f7ace2efcde9");
    assert_eq!(digest, expected);
}

#[test]
fn test_one_shot_empty() {
    let digest = one_shot(&[]).unwrap();
    let expected = from_hex("e3b0c44298fc1c149afbf4c8996fb92427ae41e4649b934ca495991b7852b855");
    assert_eq!(digest, expected);
}

#[test]
fn test_block_boundaries_against_reference() {
    for len in [0usize, 1, 55, 56, 57, 63, 64, 65, 119, 120, 121] {
        let message: Vec<u8> = (0..len).map(|i| (i % 251) as u8).collect();
        let subject = one_shot(&message).unwrap();
        let expected = Sha256::digest(&message);
        assert_eq!(expected.as_slice(), subject.as_slice(), "length {}", len);
    }
}

#[test]
fn test_one_shot_repeated_calls_agree() {
    let message = b"the same message, hashed twice";
    let first = one_shot(message).unwrap();
    let second = one_shot(message).unwrap();
    assert_eq!(first, second);
}

#[test]
fn test_hasher_trait_matches_one_shot() {
    let message = b"compared through the trait";
    let through_trait = <shoddy_sha::sha256::Sha256 as Hasher>::one_shot(message);
    let direct = one_shot(message).unwrap();
    assert_eq!(through_trait, direct);
    assert_eq!(through_trait.len(), 32);
}

#[test]
fn test_digest_length_is_32() {
    for len in [0usize, 1, 64, 200] {
        let message = vec![0x5au8; len];
        assert_eq!(one_shot(&message).unwrap().len(), 32);
    }
}
