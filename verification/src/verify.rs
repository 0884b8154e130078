//! Capability-polymorphic signature verification: lazily materialized
//! messages, account identification, and the closed set of supported
//! signature schemes, plus the wrapped application-key adapter.

use vstd::prelude::*;
use crate::crypto::{
    blake2_256, blake2_256_of, bytes_equal, ecdsa_recover_compressed, ecdsa_recovered,
    ed25519_valid, ed25519_verify_raw, sr25519_valid, sr25519_verify_raw,
};

verus! {

/// A lazily materialized byte message.
///
/// The bytes are computed at most once, on first access, and only if a
/// consumer actually asks for them.
pub trait Lazy: Sized {
    /// The message bytes this value stands for.
    spec fn bytes(&self) -> Seq<u8>;

    /// Whether the bytes may be materialized at all.
    spec fn materializable(&self) -> bool;

    /// Materialize the message bytes.
    fn get(&mut self) -> (r: Vec<u8>)
        requires
            old(self).materializable(),
        ensures
            r@ == old(self).bytes(),
            final(self).bytes() == old(self).bytes(),
            final(self).materializable(),
    ;
}

/// An already materialized message: its own bytes.
impl Lazy for Vec<u8> {
    open spec fn bytes(&self) -> Seq<u8> {
        self@
    }

    open spec fn materializable(&self) -> bool {
        true
    }

    fn get(&mut self) -> (r: Vec<u8>) {
        let mut out: Vec<u8> = Vec::new();
        let mut i: usize = 0;
        while i < self.len()
            invariant
                i <= self@.len(),
                out@ == self@.take(i as int),
                *self == *old(self),
            decreases self@.len() - i,
        {
            let b = self[i];
            out.push(b);
            i += 1;
        }
        proof {
            assert(out@ =~= self@);
        }
        out
    }
}

/// A message placeholder for contexts that must decide without the message:
/// materializing it is forbidden, so a consumer verified against this type
/// provably never asks for the bytes.
pub struct UnreachableMessage;

impl Lazy for UnreachableMessage {
    open spec fn bytes(&self) -> Seq<u8> {
        Seq::empty()
    }

    open spec fn materializable(&self) -> bool {
        false
    }

    fn get(&mut self) -> (r: Vec<u8>) {
        vstd::pervasive::unreached()
    }
}

/// Some type that can be collapsed into an account identifier. It is not
/// possible to recreate the original value from the identifier.
pub trait IdentifyAccount: Sized {
    /// The account identifier this collapses into.
    type AccountId;

    /// What [`IdentifyAccount::into_account`] produces.
    spec fn spec_into_account(self) -> Self::AccountId;

    /// Collapse into an account identifier.
    fn into_account(self) -> (r: Self::AccountId)
        ensures
            r == self.spec_into_account(),
    ;
}

/// Means of signature verification.
pub trait Verify: Sized {
    /// The type of the signer.
    type Signer: IdentifyAccount;

    /// Whether the signature's byte shape fits the scheme for this signer,
    /// so that verification has to consult the message at all.
    spec fn spec_shape_ok(
        &self,
        signer: &<Self::Signer as IdentifyAccount>::AccountId,
    ) -> bool;

    /// What verification decides, given the message bytes.
    spec fn spec_verify(
        &self,
        msg: Seq<u8>,
        signer: &<Self::Signer as IdentifyAccount>::AccountId,
    ) -> bool;

    /// A signature whose shape does not fit the scheme is invalid whatever
    /// the message holds.
    proof fn lemma_shape_invalid(
        &self,
        msg: Seq<u8>,
        signer: &<Self::Signer as IdentifyAccount>::AccountId,
    )
        ensures
            !self.spec_shape_ok(signer) ==> !self.spec_verify(msg, signer),
    ;

    /// Verify a signature: `true` exactly when the signature is valid for
    /// the message and the signer.
    ///
    /// The message is materialized at most once, and not at all when the
    /// signature's shape already rules it out.
    fn verify<L: Lazy>(
        &self,
        msg: L,
        signer: &<Self::Signer as IdentifyAccount>::AccountId,
    ) -> (r: bool)
        requires
            self.spec_shape_ok(signer) ==> msg.materializable(),
        ensures
            r == self.spec_verify(msg.bytes(), signer),
    ;
}

/// An ed25519 public key: 32 bytes.
#[derive(Clone, PartialEq, Eq, Debug)]
pub struct Ed25519Public {
    /// The raw key bytes.
    pub bytes: Vec<u8>,
}

/// An ed25519 signature: 64 bytes.
#[derive(Clone, PartialEq, Eq, Debug)]
pub struct Ed25519Signature {
    /// The raw signature bytes.
    pub bytes: Vec<u8>,
}

impl IdentifyAccount for Ed25519Public {
    type AccountId = Ed25519Public;

    open spec fn spec_into_account(self) -> Ed25519Public {
        self
    }

    fn into_account(self) -> (r: Ed25519Public) {
        self
    }
}

impl Verify for Ed25519Signature {
    type Signer = Ed25519Public;

    open spec fn spec_shape_ok(&self, signer: &Ed25519Public) -> bool {
        self.bytes@.len() == 64 && signer.bytes@.len() == 32
    }

    open spec fn spec_verify(&self, msg: Seq<u8>, signer: &Ed25519Public) -> bool {
        self.spec_shape_ok(signer) && ed25519_valid(self.bytes@, msg, signer.bytes@)
    }

    proof fn lemma_shape_invalid(&self, msg: Seq<u8>, signer: &Ed25519Public) {
    }

    fn verify<L: Lazy>(&self, msg: L, signer: &Ed25519Public) -> (r: bool) {
        if self.bytes.len() != 64 || signer.bytes.len() != 32 {
            return false;
        }
        let mut msg = msg;
        let m = msg.get();
        ed25519_verify_raw(self.bytes.as_slice(), m.as_slice(), signer.bytes.as_slice())
    }
}

/// An sr25519 public key: 32 bytes.
#[derive(Clone, PartialEq, Eq, Debug)]
pub struct Sr25519Public {
    /// The raw key bytes.
    pub bytes: Vec<u8>,
}

/// An sr25519 signature: 64 bytes.
#[derive(Clone, PartialEq, Eq, Debug)]
pub struct Sr25519Signature {
    /// The raw signature bytes.
    pub bytes: Vec<u8>,
}

impl IdentifyAccount for Sr25519Public {
    type AccountId = Sr25519Public;

    open spec fn spec_into_account(self) -> Sr25519Public {
        self
    }

    fn into_account(self) -> (r: Sr25519Public) {
        self
    }
}

impl Verify for Sr25519Signature {
    type Signer = Sr25519Public;

    open spec fn spec_shape_ok(&self, signer: &Sr25519Public) -> bool {
        self.bytes@.len() == 64 && signer.bytes@.len() == 32
    }

    open spec fn spec_verify(&self, msg: Seq<u8>, signer: &Sr25519Public) -> bool {
        self.spec_shape_ok(signer) && sr25519_valid(self.bytes@, msg, signer.bytes@)
    }

    proof fn lemma_shape_invalid(&self, msg: Seq<u8>, signer: &Sr25519Public) {
    }

    fn verify<L: Lazy>(&self, msg: L, signer: &Sr25519Public) -> (r: bool) {
        if self.bytes.len() != 64 || signer.bytes.len() != 32 {
            return false;
        }
        let mut msg = msg;
        let m = msg.get();
        sr25519_verify_raw(self.bytes.as_slice(), m.as_slice(), signer.bytes.as_slice())
    }
}

/// An ECDSA (secp256k1) compressed public key: 33 bytes.
#[derive(Clone, PartialEq, Eq, Debug)]
pub struct EcdsaPublic {
    /// The raw compressed key bytes.
    pub bytes: Vec<u8>,
}

/// A recoverable ECDSA (secp256k1) signature: 65 bytes.
#[derive(Clone, PartialEq, Eq, Debug)]
pub struct EcdsaSignature {
    /// The raw signature bytes, in RSV form.
    pub bytes: Vec<u8>,
}

impl IdentifyAccount for EcdsaPublic {
    type AccountId = EcdsaPublic;

    open spec fn spec_into_account(self) -> EcdsaPublic {
        self
    }

    fn into_account(self) -> (r: EcdsaPublic) {
        self
    }
}

impl Verify for EcdsaSignature {
    type Signer = EcdsaPublic;

    open spec fn spec_shape_ok(&self, signer: &EcdsaPublic) -> bool {
        self.bytes@.len() == 65 && signer.bytes@.len() == 33
    }

    /// Success requires both a successful recovery from the hashed message
    /// and byte-equality with the claimed signer's key; a recovery failure
    /// is a verification failure, never an error.
    open spec fn spec_verify(&self, msg: Seq<u8>, signer: &EcdsaPublic) -> bool {
        self.spec_shape_ok(signer) && match ecdsa_recovered(
            self.bytes@,
            blake2_256_of(msg)@,
        ) {
            Some(k) => k == signer.bytes@,
            None => false,
        }
    }

    proof fn lemma_shape_invalid(&self, msg: Seq<u8>, signer: &EcdsaPublic) {
    }

    fn verify<L: Lazy>(&self, msg: L, signer: &EcdsaPublic) -> (r: bool) {
        if self.bytes.len() != 65 || signer.bytes.len() != 33 {
            return false;
        }
        let mut msg = msg;
        let m = msg.get();
        let h = blake2_256(m.as_slice());
        match ecdsa_recover_compressed(self.bytes.as_slice(), &h) {
            Some(k) => bytes_equal(k.as_slice(), signer.bytes.as_slice()),
            None => false,
        }
    }
}

/// Means of signature verification of a wrapped application key.
pub trait AppVerify: Sized {
    /// The type of the signer.
    type AccountId;

    /// Whether the signature's byte shape fits the scheme for this signer.
    spec fn spec_shape_ok(&self, signer: &Self::AccountId) -> bool;

    /// What verification decides, given the message bytes.
    spec fn spec_verify(&self, msg: Seq<u8>, signer: &Self::AccountId) -> bool;

    /// Verify a signature: `true` exactly when the signature is valid for
    /// the message and the signer.
    fn verify<L: Lazy>(&self, msg: L, signer: &Self::AccountId) -> (r: bool)
        requires
            self.spec_shape_ok(signer) ==> msg.materializable(),
        ensures
            r == self.spec_verify(msg.bytes(), signer),
    ;
}

/// A signature tagged with an application namespace `TAG`. The namespace
/// lives purely in the type: the byte payload is that of the wrapped
/// generic signature.
#[derive(Clone, PartialEq, Eq, Debug)]
pub struct AppSignature<const TAG: u32, S> {
    /// The wrapped generic signature.
    pub inner: S,
}

/// A public key tagged with an application namespace `TAG`. The namespace
/// lives purely in the type: the byte payload is that of the wrapped
/// generic key.
#[derive(Clone, PartialEq, Eq, Debug)]
pub struct AppPublic<const TAG: u32, P> {
    /// The wrapped generic key.
    pub inner: P,
}

/// Verification of an application-tagged signature unwraps the signature,
/// translates the tagged signer into its generic form, and delegates to the
/// generic scheme. No runtime namespace check exists or is needed.
impl<const TAG: u32, S: Verify> AppVerify for AppSignature<TAG, S> where
    S::Signer: IdentifyAccount<AccountId = S::Signer>,
 {
    type AccountId = AppPublic<TAG, <S as Verify>::Signer>;

    open spec fn spec_shape_ok(&self, signer: &Self::AccountId) -> bool {
        self.inner.spec_shape_ok(&signer.inner)
    }

    open spec fn spec_verify(&self, msg: Seq<u8>, signer: &Self::AccountId) -> bool {
        self.inner.spec_verify(msg, &signer.inner)
    }

    fn verify<L: Lazy>(&self, msg: L, signer: &Self::AccountId) -> (r: bool) {
        self.inner.verify(msg, &signer.inner)
    }
}

} // verus!
