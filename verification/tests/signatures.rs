//! Signature verification across the three schemes, the wrapped
//! application-key adapter, and verification laziness.

use runtime_primitives::verify::{
    AppPublic, AppSignature, AppVerify, EcdsaPublic, EcdsaSignature, Ed25519Public,
    Ed25519Signature, IdentifyAccount, Sr25519Public, Sr25519Signature, UnreachableMessage,
    Verify,
};
use sp_core::Pair;

#[test]
fn app_verify_works() {
    let s = AppSignature::<0x74657374, Sr25519Signature> {
        inner: Sr25519Signature { bytes: vec![0u8; 64] },
    };
    let p = AppPublic::<0x74657374, Sr25519Public> {
        inner: Sr25519Public { bytes: vec![0u8; 32] },
    };
    let _ = s.verify(vec![0u8; 100], &p);
}

#[test]
fn ed25519_round_trip_verifies() {
    let pair = sp_core::ed25519::Pair::from_seed(&[1u8; 32]);
    let message = b"runtime primitives".to_vec();
    let sig = Ed25519Signature { bytes: pair.sign(&message).0.to_vec() };
    let key = Ed25519Public { bytes: pair.public().0.to_vec() };
    assert!(sig.verify(message.clone(), &key));
    let mut wrong = message.clone();
    wrong[0] ^= 1;
    assert!(!sig.verify(wrong, &key));
    let mut bad_sig = Ed25519Signature { bytes: sig.bytes.clone() };
    bad_sig.bytes[0] ^= 1;
    assert!(!bad_sig.verify(message, &key));
}

#[test]
fn sr25519_round_trip_verifies() {
    let pair = sp_core::sr25519::Pair::from_seed(&[2u8; 32]);
    let message = b"runtime primitives".to_vec();
    let sig = Sr25519Signature { bytes: pair.sign(&message).0.to_vec() };
    let key = Sr25519Public { bytes: pair.public().0.to_vec() };
    assert!(sig.verify(message.clone(), &key));
    let mut wrong = message;
    wrong[0] ^= 1;
    assert!(!sig.verify(wrong, &key));
}

#[test]
fn ecdsa_recovery_compares_the_claimed_key() {
    let pair = sp_core::ecdsa::Pair::from_seed(&[3u8; 32]);
    let message = b"runtime primitives".to_vec();
    let sig = EcdsaSignature { bytes: pair.sign(&message).0.to_vec() };
    let key = EcdsaPublic { bytes: pair.public().0.to_vec() };
    assert!(sig.verify(message.clone(), &key));
    // A different claimed key makes recovery succeed but the comparison
    // fail: a verification failure, not an error.
    let other = sp_core::ecdsa::Pair::from_seed(&[4u8; 32]);
    let other_key = EcdsaPublic { bytes: other.public().0.to_vec() };
    assert!(!sig.verify(message.clone(), &other_key));
    // A garbled signature makes recovery itself fail: still only `false`.
    let mut bad = EcdsaSignature { bytes: vec![0xffu8; 65] };
    bad.bytes[64] = 0x05;
    assert!(!bad.verify(message, &key));
}

#[test]
fn shape_mismatch_never_materializes_the_message() {
    // The message placeholder panics if its bytes are ever requested; a
    // signature of the wrong width must conclude `false` without them.
    let short_sig = Ed25519Signature { bytes: vec![0u8; 10] };
    let key = Ed25519Public { bytes: vec![0u8; 32] };
    assert!(!short_sig.verify(UnreachableMessage, &key));
    let short_key = Sr25519Public { bytes: vec![0u8; 5] };
    let sig = Sr25519Signature { bytes: vec![0u8; 64] };
    assert!(!sig.verify(UnreachableMessage, &short_key));
    let short_ecdsa = EcdsaSignature { bytes: vec![0u8; 64] };
    let ecdsa_key = EcdsaPublic { bytes: vec![0u8; 33] };
    assert!(!short_ecdsa.verify(UnreachableMessage, &ecdsa_key));
}

#[test]
fn app_keys_delegate_to_the_generic_scheme() {
    let pair = sp_core::ed25519::Pair::from_seed(&[5u8; 32]);
    let message = b"tagged".to_vec();
    let s = AppSignature::<0x6b657973, Ed25519Signature> {
        inner: Ed25519Signature { bytes: pair.sign(&message).0.to_vec() },
    };
    let p = AppPublic::<0x6b657973, Ed25519Public> {
        inner: Ed25519Public { bytes: pair.public().0.to_vec() },
    };
    assert!(s.verify(message.clone(), &p));
    let mut wrong = message;
    wrong[0] ^= 1;
    assert!(!s.verify(wrong, &p));
}

#[test]
fn public_keys_identify_themselves() {
    let key = Ed25519Public { bytes: vec![7u8; 32] };
    assert_eq!(key.clone().into_account(), key);
}
