//! The opaque cryptographic primitives that signature verification and
//! hashing delegate to. Each primitive is a pure function of its inputs; its
//! result is named by a spec function and nothing more is assumed of it.

use vstd::prelude::*;

verus! {

/// Whether `sig` is a valid ed25519 signature of `msg` under `key`.
pub uninterp spec fn ed25519_valid(sig: Seq<u8>, msg: Seq<u8>, key: Seq<u8>) -> bool;

/// Whether `sig` is a valid sr25519 signature of `msg` under `key`.
pub uninterp spec fn sr25519_valid(sig: Seq<u8>, msg: Seq<u8>, key: Seq<u8>) -> bool;

/// The compressed public key recovered from an ECDSA signature and a
/// 32-byte message hash, or `None` when recovery fails.
pub uninterp spec fn ecdsa_recovered(sig: Seq<u8>, msg_hash: Seq<u8>) -> Option<Seq<u8>>;

/// The 32-byte Blake2b-256 digest of `data`.
pub uninterp spec fn blake2_256_of(data: Seq<u8>) -> [u8; 32];

/// Relies on `sp_core::ed25519::Pair::verify`: a pure function of the
/// signature, message and public key bytes. (The host-interface route to
/// the same check picks its backend from ambient context, so the library
/// pins this deterministic one, which that route uses by default.)
#[verifier::external_body]
pub(crate) fn ed25519_verify_raw(sig: &[u8], msg: &[u8], key: &[u8]) -> (r: bool)
    requires
        sig@.len() == 64,
        key@.len() == 32,
    ensures
        r == ed25519_valid(sig@, msg@, key@),
{
    let mut s = [0u8; 64];
    s.copy_from_slice(sig);
    let mut k = [0u8; 32];
    k.copy_from_slice(key);
    <sp_core::ed25519::Pair as sp_core::Pair>::verify(
        &sp_core::ed25519::Signature::from_raw(s),
        msg,
        &sp_core::ed25519::Public::from_raw(k),
    )
}

/// Relies on `sp_io::crypto::sr25519_verify`: a boolean that depends only on
/// the signature, message and public key bytes.
#[verifier::external_body]
pub(crate) fn sr25519_verify_raw(sig: &[u8], msg: &[u8], key: &[u8]) -> (r: bool)
    requires
        sig@.len() == 64,
        key@.len() == 32,
    ensures
        r == sr25519_valid(sig@, msg@, key@),
{
    let mut s = [0u8; 64];
    s.copy_from_slice(sig);
    let mut k = [0u8; 32];
    k.copy_from_slice(key);
    sp_io::crypto::sr25519_verify(
        &sp_core::sr25519::Signature::from_raw(s),
        msg,
        &sp_core::sr25519::Public::from_raw(k),
    )
}

/// Relies on `sp_io::crypto::secp256k1_ecdsa_recover_compressed`: recovery
/// of the 33-byte compressed public key from a 65-byte signature and the
/// 32-byte hash of the message; every failure mode becomes `None`.
#[verifier::external_body]
pub(crate) fn ecdsa_recover_compressed(sig: &[u8], msg_hash: &[u8; 32]) -> (r: Option<Vec<u8>>)
    requires
        sig@.len() == 65,
    ensures
        r matches Some(k) ==> ecdsa_recovered(sig@, msg_hash@) == Some(k@) && k@.len() == 33,
        r is None ==> ecdsa_recovered(sig@, msg_hash@) is None,
{
    let mut s = [0u8; 65];
    s.copy_from_slice(sig);
    match sp_io::crypto::secp256k1_ecdsa_recover_compressed(&s, msg_hash) {
        Ok(k) => Some(k.to_vec()),
        Err(_) => None,
    }
}

/// Relies on `sp_io::hashing::blake2_256`: the 32-byte Blake2b-256 digest of
/// the data.
#[verifier::external_body]
pub(crate) fn blake2_256(data: &[u8]) -> (r: [u8; 32])
    ensures
        r == blake2_256_of(data@),
{
    sp_io::hashing::blake2_256(data)
}

/// A fresh byte string holding the same bytes as `v`.
pub fn copy_bytes(v: &[u8]) -> (r: Vec<u8>)
    ensures
        r@ == v@,
{
    let mut out: Vec<u8> = Vec::new();
    let mut i: usize = 0;
    while i < v.len()
        invariant
            i <= v@.len(),
            out@ == v@.take(i as int),
        decreases v@.len() - i,
    {
        let b = v[i];
        out.push(b);
        i += 1;
    }
    proof {
        assert(out@ =~= v@);
    }
    out
}

/// Whether two byte strings hold the same bytes.
pub fn bytes_equal(a: &[u8], b: &[u8]) -> (r: bool)
    ensures
        r <==> a@ == b@,
{
    if a.len() != b.len() {
        return false;
    }
    let mut i: usize = 0;
    while i < a.len()
        invariant
            i <= a@.len(),
            a@.len() == b@.len(),
            forall|j: int| 0 <= j < i ==> a@[j] == b@[j],
        decreases a@.len() - i,
    {
        if a[i] != b[i] {
            return false;
        }
        i += 1;
    }
    proof {
        assert(a@ =~= b@);
    }
    true
}

} // verus!
