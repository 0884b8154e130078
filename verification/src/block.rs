//! The structural block model: the minimal shape a header, a block and an
//! extrinsic must expose, with a derived content digest built on the
//! hashing abstraction.

use vstd::prelude::*;
use crate::codec::Encode;
use crate::crypto::{bytes_equal, copy_bytes};
use crate::hash::{BlakeTwo256, Hash256};
use crate::extension::BlindCheckable;
use crate::validity::{InvalidTransaction, TransactionValidityError};
use crate::verify::{Ed25519Public, Ed25519Signature, Verify};

verus! {

impl Encode for Vec<u8> {
    /// A byte string encodes as its length, as eight little-endian bytes,
    /// followed by the bytes themselves.
    open spec fn spec_encode(&self) -> Seq<u8> {
        (self@.len() as u64).spec_encode() + self@
    }

    fn encode(&self) -> (r: Vec<u8>) {
        let len = self.len() as u64;
        let mut r = len.encode();
        let mut body = copy_bytes(self.as_slice());
        r.append(&mut body);
        proof {
            assert(r@ =~= self.spec_encode());
        }
        r
    }
}

impl Encode for Hash256 {
    /// A digest encodes as its 32 bytes, with no length prefix.
    open spec fn spec_encode(&self) -> Seq<u8> {
        self@
    }

    fn encode(&self) -> (r: Vec<u8>) {
        copy_bytes(self.0.as_slice())
    }
}

/// The digest log of a header: an ordered list of opaque log entries.
#[verifier::ext_equal]
#[derive(Clone, PartialEq, Eq, Debug)]
pub struct Digest {
    /// The log entries, oldest first.
    pub logs: Vec<Vec<u8>>,
}

impl View for Digest {
    type V = Seq<Seq<u8>>;

    open spec fn view(&self) -> Seq<Seq<u8>> {
        self.logs.deep_view()
    }
}

/// The concatenated encodings of a list of log entries, in order.
pub open spec fn spec_encode_logs(s: Seq<Vec<u8>>) -> Seq<u8>
    decreases s.len(),
{
    if s.len() == 0 {
        Seq::empty()
    } else {
        spec_encode_logs(s.drop_last()) + s.last().spec_encode()
    }
}

impl Encode for Digest {
    /// A digest log encodes as its entry count, as eight little-endian
    /// bytes, followed by each entry's encoding in order.
    open spec fn spec_encode(&self) -> Seq<u8> {
        (self.logs@.len() as u64).spec_encode() + spec_encode_logs(self.logs@)
    }

    fn encode(&self) -> (r: Vec<u8>) {
        let len = self.logs.len() as u64;
        let mut r = len.encode();
        let ghost prefix = r@;
        let mut i: usize = 0;
        while i < self.logs.len()
            invariant
                i <= self.logs@.len(),
                r@ == prefix + spec_encode_logs(self.logs@.take(i as int)),
            decreases self.logs@.len() - i,
        {
            let mut e = self.logs[i].encode();
            r.append(&mut e);
            proof {
                assert(self.logs@.take(i + 1).drop_last() =~= self.logs@.take(i as int));
                assert(self.logs@.take(i + 1).last() == self.logs@[i as int]);
            }
            i += 1;
        }
        proof {
            assert(self.logs@.take(i as int) =~= self.logs@);
            assert(r@ =~= self.spec_encode());
        }
        r
    }
}

/// The abstract idea of a header: a block number, the three content roots,
/// and a digest log, each readable and replaceable on its own. Its own
/// content digest is a pure function of its encoded bytes, so any setter
/// invalidates a digest computed before.
pub trait Header: Encode + Sized {
    /// The block-number type.
    type Number;

    /// The digest type.
    type Hash;

    /// The hashing algorithm the content digest comes from.
    type Hashing: crate::hash::Hash<Output = Self::Hash>;

    /// The header's block number.
    spec fn spec_number(&self) -> Self::Number;

    /// The root of the block's extrinsics.
    spec fn spec_extrinsics_root(&self) -> Self::Hash;

    /// The root of the state after this block.
    spec fn spec_state_root(&self) -> Self::Hash;

    /// The digest of the parent block.
    spec fn spec_parent_hash(&self) -> Self::Hash;

    /// The digest log.
    spec fn spec_digest(&self) -> Digest;

    /// Create a new header from its five parts.
    fn new(
        number: Self::Number,
        extrinsics_root: Self::Hash,
        state_root: Self::Hash,
        parent_hash: Self::Hash,
        digest: Digest,
    ) -> (r: Self)
        ensures
            r.spec_number() == number,
            r.spec_extrinsics_root() == extrinsics_root,
            r.spec_state_root() == state_root,
            r.spec_parent_hash() == parent_hash,
            r.spec_digest() == digest,
    ;

    /// The header number.
    fn number(&self) -> (r: &Self::Number)
        ensures
            *r == self.spec_number(),
    ;

    /// Replace the header number.
    fn set_number(&mut self, number: Self::Number)
        ensures
            final(self).spec_number() == number,
            final(self).spec_extrinsics_root() == old(self).spec_extrinsics_root(),
            final(self).spec_state_root() == old(self).spec_state_root(),
            final(self).spec_parent_hash() == old(self).spec_parent_hash(),
            final(self).spec_digest() == old(self).spec_digest(),
    ;

    /// The extrinsics root.
    fn extrinsics_root(&self) -> (r: &Self::Hash)
        ensures
            *r == self.spec_extrinsics_root(),
    ;

    /// Replace the extrinsics root.
    fn set_extrinsics_root(&mut self, root: Self::Hash)
        ensures
            final(self).spec_extrinsics_root() == root,
            final(self).spec_number() == old(self).spec_number(),
            final(self).spec_state_root() == old(self).spec_state_root(),
            final(self).spec_parent_hash() == old(self).spec_parent_hash(),
            final(self).spec_digest() == old(self).spec_digest(),
    ;

    /// The state root.
    fn state_root(&self) -> (r: &Self::Hash)
        ensures
            *r == self.spec_state_root(),
    ;

    /// Replace the state root.
    fn set_state_root(&mut self, root: Self::Hash)
        ensures
            final(self).spec_state_root() == root,
            final(self).spec_number() == old(self).spec_number(),
            final(self).spec_extrinsics_root() == old(self).spec_extrinsics_root(),
            final(self).spec_parent_hash() == old(self).spec_parent_hash(),
            final(self).spec_digest() == old(self).spec_digest(),
    ;

    /// The parent digest.
    fn parent_hash(&self) -> (r: &Self::Hash)
        ensures
            *r == self.spec_parent_hash(),
    ;

    /// Replace the parent digest.
    fn set_parent_hash(&mut self, hash: Self::Hash)
        ensures
            final(self).spec_parent_hash() == hash,
            final(self).spec_number() == old(self).spec_number(),
            final(self).spec_extrinsics_root() == old(self).spec_extrinsics_root(),
            final(self).spec_state_root() == old(self).spec_state_root(),
            final(self).spec_digest() == old(self).spec_digest(),
    ;

    /// The digest log.
    fn digest(&self) -> (r: &Digest)
        ensures
            *r == self.spec_digest(),
    ;

    /// Replace the digest log.
    fn set_digest(&mut self, digest: Digest)
        ensures
            final(self).spec_digest() == digest,
            final(self).spec_number() == old(self).spec_number(),
            final(self).spec_extrinsics_root() == old(self).spec_extrinsics_root(),
            final(self).spec_state_root() == old(self).spec_state_root(),
            final(self).spec_parent_hash() == old(self).spec_parent_hash(),
    ;

    /// The header's own content digest: the digest of its full encoding,
    /// never cached across mutation.
    fn hash(&self) -> (r: Self::Hash)
        ensures
            r == <Self::Hashing as crate::hash::Hash>::spec_hash(self.spec_encode()),
    {
        <Self::Hashing as crate::hash::Hash>::hash_of(self)
    }
}

/// A concrete header over 64-bit block numbers and 32-byte digests.
#[verifier::ext_equal]
#[derive(Clone, PartialEq, Eq, Debug)]
pub struct BasicHeader {
    /// The block number.
    pub number: u64,
    /// The root of the block's extrinsics.
    pub extrinsics_root: Hash256,
    /// The root of the state after this block.
    pub state_root: Hash256,
    /// The digest of the parent block.
    pub parent_hash: Hash256,
    /// The digest log.
    pub digest: Digest,
}

impl Encode for BasicHeader {
    /// A header encodes as its five parts, in order.
    open spec fn spec_encode(&self) -> Seq<u8> {
        self.number.spec_encode() + self.extrinsics_root.spec_encode()
            + self.state_root.spec_encode() + self.parent_hash.spec_encode()
            + self.digest.spec_encode()
    }

    fn encode(&self) -> (r: Vec<u8>) {
        let mut r = self.number.encode();
        let mut p2 = self.extrinsics_root.encode();
        r.append(&mut p2);
        let mut p3 = self.state_root.encode();
        r.append(&mut p3);
        let mut p4 = self.parent_hash.encode();
        r.append(&mut p4);
        let mut p5 = self.digest.encode();
        r.append(&mut p5);
        proof {
            assert(r@ =~= self.spec_encode());
        }
        r
    }
}

impl Header for BasicHeader {
    type Number = u64;

    type Hash = Hash256;

    type Hashing = BlakeTwo256;

    open spec fn spec_number(&self) -> u64 {
        self.number
    }

    open spec fn spec_extrinsics_root(&self) -> Hash256 {
        self.extrinsics_root
    }

    open spec fn spec_state_root(&self) -> Hash256 {
        self.state_root
    }

    open spec fn spec_parent_hash(&self) -> Hash256 {
        self.parent_hash
    }

    open spec fn spec_digest(&self) -> Digest {
        self.digest
    }

    fn new(
        number: u64,
        extrinsics_root: Hash256,
        state_root: Hash256,
        parent_hash: Hash256,
        digest: Digest,
    ) -> (r: Self) {
        BasicHeader { number, extrinsics_root, state_root, parent_hash, digest }
    }

    fn number(&self) -> (r: &u64) {
        &self.number
    }

    fn set_number(&mut self, number: u64) {
        self.number = number;
    }

    fn extrinsics_root(&self) -> (r: &Hash256) {
        &self.extrinsics_root
    }

    fn set_extrinsics_root(&mut self, root: Hash256) {
        self.extrinsics_root = root;
    }

    fn state_root(&self) -> (r: &Hash256) {
        &self.state_root
    }

    fn set_state_root(&mut self, root: Hash256) {
        self.state_root = root;
    }

    fn parent_hash(&self) -> (r: &Hash256) {
        &self.parent_hash
    }

    fn set_parent_hash(&mut self, hash: Hash256) {
        self.parent_hash = hash;
    }

    fn digest(&self) -> (r: &Digest) {
        &self.digest
    }

    fn set_digest(&mut self, digest: Digest) {
        self.digest = digest;
    }
}

/// The abstract idea of an extrinsic: it may report whether it is signed,
/// and may be constructible from a call and an optional signature payload.
pub trait Extrinsic: Sized {
    /// The function call the extrinsic carries.
    type Call;

    /// The payload carried for signed extrinsics.
    type SignaturePayload;

    /// What [`Extrinsic::is_signed`] reports.
    spec fn spec_is_signed(&self) -> Option<bool>;

    /// What [`Extrinsic::new`] produces.
    spec fn spec_new(call: Self::Call, signed_data: Option<Self::SignaturePayload>) -> Option<
        Self,
    >;

    /// Whether this extrinsic is signed; `None` when no information is
    /// available.
    fn is_signed(&self) -> (r: Option<bool>)
        ensures
            r == self.spec_is_signed(),
    ;

    /// Create a new instance, or refuse when the combination of call and
    /// payload is unsupported.
    fn new(call: Self::Call, signed_data: Option<Self::SignaturePayload>) -> (r: Option<Self>)
        ensures
            r == Self::spec_new(call, signed_data),
    ;
}

/// A concrete extrinsic: an opaque call, optionally signed with an ed25519
/// key over the call bytes.
#[verifier::ext_equal]
#[derive(Clone, PartialEq, Eq, Debug)]
pub struct BasicExtrinsic {
    /// The encoded call.
    pub call: Vec<u8>,
    /// The signer's key and the signature over the call bytes, when signed.
    pub signature: Option<(Ed25519Public, Ed25519Signature)>,
}

impl Encode for BasicExtrinsic {
    /// An extrinsic encodes as a one-byte signed marker, the signature
    /// payload when present, then the call bytes.
    open spec fn spec_encode(&self) -> Seq<u8> {
        match self.signature {
            None => seq![0u8] + self.call.spec_encode(),
            Some((key, sig)) => seq![1u8] + key.bytes.spec_encode() + sig.bytes.spec_encode()
                + self.call.spec_encode(),
        }
    }

    fn encode(&self) -> (r: Vec<u8>) {
        let mut r: Vec<u8> = Vec::new();
        match &self.signature {
            None => {
                r.push(0u8);
                let mut c = self.call.encode();
                r.append(&mut c);
            },
            Some((key, sig)) => {
                r.push(1u8);
                let mut k = key.bytes.encode();
                r.append(&mut k);
                let mut s = sig.bytes.encode();
                r.append(&mut s);
                let mut c = self.call.encode();
                r.append(&mut c);
            },
        }
        proof {
            assert(r@ =~= self.spec_encode());
        }
        r
    }
}

impl Extrinsic for BasicExtrinsic {
    type Call = Vec<u8>;

    type SignaturePayload = (Ed25519Public, Ed25519Signature);

    open spec fn spec_is_signed(&self) -> Option<bool> {
        Some(self.signature is Some)
    }

    open spec fn spec_new(
        call: Vec<u8>,
        signed_data: Option<(Ed25519Public, Ed25519Signature)>,
    ) -> Option<Self> {
        Some(BasicExtrinsic { call, signature: signed_data })
    }

    fn is_signed(&self) -> (r: Option<bool>) {
        match &self.signature {
            Some(_) => Some(true),
            None => Some(false),
        }
    }

    fn new(call: Vec<u8>, signed_data: Option<(Ed25519Public, Ed25519Signature)>) -> (r: Option<
        Self,
    >) {
        Some(BasicExtrinsic { call, signature: signed_data })
    }
}

/// A checked extrinsic: the call together with its established origin.
#[verifier::ext_equal]
#[derive(Clone, PartialEq, Eq, Debug)]
pub struct CheckedExtrinsic {
    /// The signer whose signature was verified, or `None` for an unsigned
    /// extrinsic.
    pub signed: Option<Ed25519Public>,
    /// The encoded call.
    pub call: Vec<u8>,
}

/// Checking an extrinsic verifies its signature over the call bytes; a bad
/// signature is a validity error, never a fault.
impl BlindCheckable for BasicExtrinsic {
    type Checked = CheckedExtrinsic;

    open spec fn spec_check(self) -> Result<CheckedExtrinsic, TransactionValidityError> {
        match self.signature {
            None => Ok(CheckedExtrinsic { signed: None, call: self.call }),
            Some((key, sig)) => if sig.spec_verify(self.call@, &key) {
                Ok(CheckedExtrinsic { signed: Some(key), call: self.call })
            } else {
                Err(TransactionValidityError::Invalid(InvalidTransaction::BadProof))
            },
        }
    }

    fn check(self) -> (r: Result<CheckedExtrinsic, TransactionValidityError>) {
        match self.signature {
            None => Ok(CheckedExtrinsic { signed: None, call: self.call }),
            Some((key, sig)) => {
                let m = copy_bytes(self.call.as_slice());
                if sig.verify(m, &key) {
                    Ok(CheckedExtrinsic { signed: Some(key), call: self.call })
                } else {
                    Err(TransactionValidityError::Invalid(InvalidTransaction::BadProof))
                }
            },
        }
    }
}

/// The concatenated encodings of a list of extrinsics, in order.
pub open spec fn spec_encode_extrinsics(s: Seq<BasicExtrinsic>) -> Seq<u8>
    decreases s.len(),
{
    if s.len() == 0 {
        Seq::empty()
    } else {
        spec_encode_extrinsics(s.drop_last()) + s.last().spec_encode()
    }
}

/// The abstract idea of a block: a header and an ordered list of
/// extrinsics, decomposable into the pair and reconstructible from it
/// without loss.
pub trait Block: Encode + Sized {
    /// The extrinsic type.
    type Extrinsic: Encode + Extrinsic;

    /// The header type.
    type Header: Header<Hash = Self::Hash>;

    /// The digest type.
    type Hash;

    /// The block's header.
    spec fn spec_header(&self) -> Self::Header;

    /// The block's extrinsics, in order.
    spec fn spec_extrinsics(&self) -> Seq<Self::Extrinsic>;

    /// The wire bytes of a block made of `header` and `extrinsics`.
    spec fn spec_encode_parts(header: &Self::Header, extrinsics: Seq<Self::Extrinsic>) -> Seq<
        u8,
    >;

    /// A block's encoding is exactly the encoding of its parts: encoding a
    /// block and encoding its header and extrinsics directly give the same
    /// bytes.
    proof fn lemma_encode_is_parts(&self)
        ensures
            self.spec_encode() == Self::spec_encode_parts(
                &self.spec_header(),
                self.spec_extrinsics(),
            ),
    ;

    /// The header.
    fn header(&self) -> (r: &Self::Header)
        ensures
            *r == self.spec_header(),
    ;

    /// The list of extrinsics.
    fn extrinsics(&self) -> (r: &[Self::Extrinsic])
        ensures
            r@ == self.spec_extrinsics(),
    ;

    /// Split the block into its header and its extrinsics.
    fn deconstruct(self) -> (r: (Self::Header, Vec<Self::Extrinsic>))
        ensures
            r.0 == self.spec_header(),
            r.1@ == self.spec_extrinsics(),
    ;

    /// Create a new block from a header and extrinsics.
    fn new(header: Self::Header, extrinsics: Vec<Self::Extrinsic>) -> (r: Self)
        ensures
            r.spec_header() == header,
            r.spec_extrinsics() == extrinsics@,
    ;

    /// The block's digest: its header's digest. The extrinsics take part
    /// only through the extrinsics root already inside the header.
    fn hash(&self) -> (r: Self::Hash)
        ensures
            r == <<Self::Header as Header>::Hashing as crate::hash::Hash>::spec_hash(
                self.spec_header().spec_encode(),
            ),
    {
        self.header().hash()
    }

    /// The wire bytes of a block made of `header` and `extrinsics`, without
    /// materializing one; byte for byte what encoding the constructed block
    /// gives.
    fn encode_from(header: &Self::Header, extrinsics: &[Self::Extrinsic]) -> (r: Vec<u8>)
        ensures
            r@ == Self::spec_encode_parts(header, extrinsics@),
    ;
}

/// A concrete block over [`BasicHeader`] and [`BasicExtrinsic`].
#[verifier::ext_equal]
#[derive(Clone, PartialEq, Eq, Debug)]
pub struct BasicBlock {
    /// The header.
    pub header: BasicHeader,
    /// The extrinsics, in order.
    pub extrinsics: Vec<BasicExtrinsic>,
}

impl Encode for BasicBlock {
    /// A block encodes as its header, the extrinsic count as eight
    /// little-endian bytes, then each extrinsic in order.
    open spec fn spec_encode(&self) -> Seq<u8> {
        self.header.spec_encode() + (self.extrinsics@.len() as u64).spec_encode()
            + spec_encode_extrinsics(self.extrinsics@)
    }

    fn encode(&self) -> (r: Vec<u8>) {
        let r = Self::encode_from(&self.header, self.extrinsics.as_slice());
        proof {
            assert(r@ =~= self.spec_encode());
        }
        r
    }
}

impl Block for BasicBlock {
    type Extrinsic = BasicExtrinsic;

    type Header = BasicHeader;

    type Hash = Hash256;

    open spec fn spec_header(&self) -> BasicHeader {
        self.header
    }

    open spec fn spec_extrinsics(&self) -> Seq<BasicExtrinsic> {
        self.extrinsics@
    }

    open spec fn spec_encode_parts(header: &BasicHeader, extrinsics: Seq<BasicExtrinsic>) -> Seq<
        u8,
    > {
        header.spec_encode() + (extrinsics.len() as u64).spec_encode() + spec_encode_extrinsics(
            extrinsics,
        )
    }

    proof fn lemma_encode_is_parts(&self) {
    }

    fn header(&self) -> (r: &BasicHeader) {
        &self.header
    }

    fn extrinsics(&self) -> (r: &[BasicExtrinsic]) {
        self.extrinsics.as_slice()
    }

    fn deconstruct(self) -> (r: (BasicHeader, Vec<BasicExtrinsic>)) {
        (self.header, self.extrinsics)
    }

    fn new(header: BasicHeader, extrinsics: Vec<BasicExtrinsic>) -> (r: Self) {
        BasicBlock { header, extrinsics }
    }

    fn encode_from(header: &BasicHeader, extrinsics: &[BasicExtrinsic]) -> (r: Vec<u8>) {
        let mut r = header.encode();
        let len = extrinsics.len() as u64;
        let mut l = len.encode();
        r.append(&mut l);
        let ghost prefix = r@;
        let mut i: usize = 0;
        while i < extrinsics.len()
            invariant
                i <= extrinsics@.len(),
                r@ == prefix + spec_encode_extrinsics(extrinsics@.take(i as int)),
            decreases extrinsics@.len() - i,
        {
            let mut e = extrinsics[i].encode();
            r.append(&mut e);
            proof {
                assert(extrinsics@.take(i + 1).drop_last() =~= extrinsics@.take(i as int));
                assert(extrinsics@.take(i + 1).last() == extrinsics@[i as int]);
            }
            i += 1;
        }
        proof {
            assert(extrinsics@.take(i as int) =~= extrinsics@);
            assert(r@ =~= Self::spec_encode_parts(header, extrinsics@));
        }
        r
    }
}

/// A block is exactly its header-and-extrinsics pair: two blocks with the
/// same header and the same extrinsics agree byte for byte on the wire, so
/// deconstructing a block and rebuilding one from the parts is the identity
/// up to equality.
pub proof fn lemma_block_parts_determine(b1: BasicBlock, b2: BasicBlock)
    requires
        b1.spec_header() == b2.spec_header(),
        b1.spec_extrinsics() == b2.spec_extrinsics(),
    ensures
        b1.spec_encode() == b2.spec_encode(),
        b1.header == b2.header,
{
}

/// The hashing type of a block.
pub type HashFor<B> = <<B as Block>::Header as Header>::Hashing;

/// The block-number type of a block.
pub type NumberFor<B> = <<B as Block>::Header as Header>::Number;

/// Something that can be compared against an expected copy, reporting
/// whether the two agree so a caller may log a mismatch.
pub trait CheckEqual: Sized {
    /// What [`CheckEqual::check_equal`] reports.
    spec fn spec_same(&self, other: &Self) -> bool;

    /// Compare this value with `other`.
    fn check_equal(&self, other: &Self) -> (r: bool)
        ensures
            r == self.spec_same(other),
    ;
}

impl CheckEqual for Hash256 {
    open spec fn spec_same(&self, other: &Self) -> bool {
        self@ == other@
    }

    fn check_equal(&self, other: &Self) -> (r: bool) {
        bytes_equal(self.0.as_slice(), other.0.as_slice())
    }
}

impl CheckEqual for Digest {
    open spec fn spec_same(&self, other: &Self) -> bool {
        self@ == other@
    }

    fn check_equal(&self, other: &Self) -> (r: bool) {
        if self.logs.len() != other.logs.len() {
            proof {
                assert(self@.len() == self.logs@.len());
                assert(other@.len() == other.logs@.len());
            }
            return false;
        }
        let mut i: usize = 0;
        while i < self.logs.len()
            invariant
                i <= self.logs@.len(),
                self.logs@.len() == other.logs@.len(),
                forall|j: int| 0 <= j < i ==> self.logs@[j]@ == other.logs@[j]@,
            decreases self.logs@.len() - i,
        {
            if !bytes_equal(self.logs[i].as_slice(), other.logs[i].as_slice()) {
                proof {
                    assert(self@[i as int] =~= self.logs@[i as int]@);
                    assert(other@[i as int] =~= other.logs@[i as int]@);
                    assert(self@[i as int] != other@[i as int]);
                }
                return false;
            }
            i += 1;
        }
        proof {
            assert forall|j: int| 0 <= j < self@.len() implies self@[j] == other@[j] by {
                assert(self@[j] =~= self.logs@[j]@);
                assert(other@[j] =~= other.logs@[j]@);
            }
            assert(self@ =~= other@);
        }
        true
    }
}

} // verus!
