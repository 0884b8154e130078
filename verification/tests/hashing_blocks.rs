//! The hashing abstraction, digests, and the structural block model.

use runtime_primitives::block::{
    BasicBlock, BasicExtrinsic, BasicHeader, Block, CheckEqual, Digest, Extrinsic, Header,
};
use runtime_primitives::codec::Encode;
use runtime_primitives::extension::BlindCheckable;
use runtime_primitives::hash::{BlakeTwo256, Clear, Hash256};
use runtime_primitives::validity::{InvalidTransaction, TransactionValidityError};
use runtime_primitives::verify::{Ed25519Public, Ed25519Signature};
use sp_core::Pair;

fn hash_of_bytes(data: &[u8]) -> Hash256 {
    <BlakeTwo256 as runtime_primitives::hash::Hash>::hash(data)
}

#[test]
fn blake2_256_of_empty_input_is_the_known_digest() {
    let h = hash_of_bytes(b"");
    let expected = [
        0x0e, 0x57, 0x51, 0xc0, 0x26, 0xe5, 0x43, 0xb2, 0xe8, 0xab, 0x2e, 0xb0, 0x60, 0x99,
        0xda, 0xa1, 0xd1, 0xe5, 0xdf, 0x47, 0x77, 0x8f, 0x77, 0x87, 0xfa, 0xab, 0x45, 0xcd,
        0xf1, 0x2f, 0xe3, 0xa8,
    ];
    assert_eq!(h.0, expected);
}

#[test]
fn ordered_root_depends_on_order() {
    let a = vec![vec![1u8, 2], vec![3u8]];
    let b = vec![vec![3u8], vec![1u8, 2]];
    let ra = <BlakeTwo256 as runtime_primitives::hash::Hash>::ordered_trie_root(a.clone());
    let rb = <BlakeTwo256 as runtime_primitives::hash::Hash>::ordered_trie_root(b);
    let ra2 = <BlakeTwo256 as runtime_primitives::hash::Hash>::ordered_trie_root(a);
    assert_eq!(ra, ra2);
    assert_ne!(ra, rb);
}

#[test]
fn keyed_root_ignores_insertion_order() {
    let one = vec![(vec![1u8], vec![10u8]), (vec![2u8], vec![20u8])];
    let two = vec![(vec![2u8], vec![20u8]), (vec![1u8], vec![10u8])];
    let r1 = <BlakeTwo256 as runtime_primitives::hash::Hash>::trie_root(one);
    let r2 = <BlakeTwo256 as runtime_primitives::hash::Hash>::trie_root(two);
    assert_eq!(r1, r2);
    // A later pair with the same key replaces an earlier one.
    let dup = vec![(vec![1u8], vec![9u8]), (vec![1u8], vec![10u8]), (vec![2u8], vec![20u8])];
    let r3 = <BlakeTwo256 as runtime_primitives::hash::Hash>::trie_root(dup);
    assert_eq!(r1, r3);
}

#[test]
fn digest_bit_ops_and_clear() {
    let mut a = [0u8; 32];
    a[0] = 0b1100;
    let mut b = [0u8; 32];
    b[0] = 0b1010;
    let ha = Hash256(a);
    let hb = Hash256(b);
    assert_eq!(ha.bit_and(&hb).0[0], 0b1000);
    assert_eq!(ha.bit_or(&hb).0[0], 0b1110);
    assert_eq!(ha.bit_xor(&hb).0[0], 0b0110);
    assert!(!ha.is_clear());
    assert!(Hash256::clear().is_clear());
    assert!(Hash256::default().is_clear());
    assert!(ha.check_equal(&ha));
    assert!(!ha.check_equal(&hb));
}

fn sample_header() -> BasicHeader {
    BasicHeader::new(
        42,
        Hash256([1u8; 32]),
        Hash256([2u8; 32]),
        Hash256([3u8; 32]),
        Digest { logs: vec![vec![0xaa], vec![0xbb, 0xcc]] },
    )
}

#[test]
fn header_setters_invalidate_a_cached_hash() {
    let mut h = sample_header();
    assert_eq!(*h.number(), 42);
    let before = h.hash();
    h.set_number(43);
    assert_eq!(*h.number(), 43);
    assert_ne!(h.hash(), before);
    h.set_number(42);
    assert_eq!(h.hash(), before);
    h.set_state_root(Hash256([9u8; 32]));
    assert_ne!(h.hash(), before);
}

#[test]
fn header_fields_are_independent() {
    let mut h = sample_header();
    h.set_parent_hash(Hash256([7u8; 32]));
    h.set_extrinsics_root(Hash256([8u8; 32]));
    h.set_digest(Digest { logs: vec![] });
    assert_eq!(*h.number(), 42);
    assert_eq!(*h.parent_hash(), Hash256([7u8; 32]));
    assert_eq!(*h.extrinsics_root(), Hash256([8u8; 32]));
    assert_eq!(*h.state_root(), Hash256([2u8; 32]));
    assert!(h.digest().logs.is_empty());
}

#[test]
fn digest_log_comparison() {
    let a = Digest { logs: vec![vec![1], vec![2, 3]] };
    let b = Digest { logs: vec![vec![1], vec![2, 3]] };
    let c = Digest { logs: vec![vec![1], vec![2, 4]] };
    assert!(a.check_equal(&b));
    assert!(!a.check_equal(&c));
}

#[test]
fn block_round_trips_through_its_parts() {
    let ext = BasicExtrinsic::new(vec![1, 2, 3], None).unwrap();
    let block = BasicBlock::new(sample_header(), vec![ext]);
    assert_eq!(*block.header(), sample_header());
    assert_eq!(block.extrinsics().len(), 1);
    let (header, extrinsics) = block.clone().deconstruct();
    let rebuilt = BasicBlock::new(header, extrinsics);
    assert_eq!(rebuilt, block);
}

#[test]
fn encode_from_matches_the_constructed_block() {
    let exts = vec![
        BasicExtrinsic::new(vec![1, 2, 3], None).unwrap(),
        BasicExtrinsic::new(vec![4], None).unwrap(),
    ];
    let direct = BasicBlock::encode_from(&sample_header(), &exts);
    let built = BasicBlock::new(sample_header(), exts).encode();
    assert_eq!(direct, built);
}

#[test]
fn block_hash_is_its_header_hash() {
    let block = BasicBlock::new(sample_header(), vec![]);
    assert_eq!(block.hash(), block.header().hash());
    assert_eq!(block.hash(), sample_header().hash());
}

#[test]
fn extrinsic_reports_whether_it_is_signed() {
    let unsigned = BasicExtrinsic::new(vec![1], None).unwrap();
    assert_eq!(unsigned.is_signed(), Some(false));
    let key = Ed25519Public { bytes: vec![0u8; 32] };
    let sig = Ed25519Signature { bytes: vec![0u8; 64] };
    let signed = BasicExtrinsic::new(vec![1], Some((key, sig))).unwrap();
    assert_eq!(signed.is_signed(), Some(true));
}

#[test]
fn checking_an_extrinsic_verifies_its_signature() {
    let unsigned = BasicExtrinsic::new(vec![9], None).unwrap();
    let checked = unsigned.check().unwrap();
    assert_eq!(checked.signed, None);
    assert_eq!(checked.call, vec![9]);

    let pair = sp_core::ed25519::Pair::from_seed(&[6u8; 32]);
    let call = vec![0xde, 0xad];
    let key = Ed25519Public { bytes: pair.public().0.to_vec() };
    let sig = Ed25519Signature { bytes: pair.sign(&call).0.to_vec() };
    let good = BasicExtrinsic::new(call.clone(), Some((key.clone(), sig))).unwrap();
    let checked = good.check().unwrap();
    assert_eq!(checked.signed, Some(key.clone()));
    assert_eq!(checked.call, call);

    let forged = Ed25519Signature { bytes: vec![0u8; 64] };
    let bad = BasicExtrinsic::new(call, Some((key, forged))).unwrap();
    assert_eq!(
        bad.check(),
        Err(TransactionValidityError::Invalid(InvalidTransaction::BadProof)),
    );
}
