//! The hashing abstraction: a fixed-size content digest, a pure hash
//! function over byte slices, and the two trie-root operations over ordered
//! lists and keyed mappings.

use vstd::prelude::*;
use crate::codec::Encode;
use crate::crypto::{blake2_256, blake2_256_of, bytes_equal};

verus! {

broadcast use vstd::array::group_array_axioms;

/// A 32-byte content digest. Fixed-size, copyable, comparable.
#[verifier::ext_equal]
#[derive(Clone, Copy, PartialEq, Eq, Debug, Hash)]
pub struct Hash256(pub [u8; 32]);

impl View for Hash256 {
    type V = Seq<u8>;

    open spec fn view(&self) -> Seq<u8> {
        self.0@
    }
}

impl Default for Hash256 {
    /// The all-zero digest.
    fn default() -> (r: Self)
        ensures
            r@.len() == 32,
            forall|i: int| 0 <= i < 32 ==> r@[i] == 0,
    {
        Hash256([0u8; 32])
    }
}

/// A value with a distinguished all-clear form, in which no bits are set.
pub trait Clear: Sized {
    /// Whether no bits are set.
    spec fn spec_is_clear(&self) -> bool;

    /// Report whether no bits are set.
    fn is_clear(&self) -> (r: bool)
        ensures
            r == self.spec_is_clear(),
    ;

    /// Produce the value with no bits set.
    fn clear() -> (r: Self)
        ensures
            r.spec_is_clear(),
    ;
}

impl Clear for Hash256 {
    open spec fn spec_is_clear(&self) -> bool {
        forall|i: int| 0 <= i < 32 ==> self@[i] == 0
    }

    fn is_clear(&self) -> (r: bool) {
        let mut i: usize = 0;
        while i < 32
            invariant
                i <= 32,
                forall|j: int| 0 <= j < i ==> self@[j] == 0,
            decreases 32 - i,
        {
            if self.0[i] != 0 {
                assert(self@[i as int] != 0);
                return false;
            }
            i += 1;
        }
        true
    }

    fn clear() -> (r: Self) {
        Hash256([0u8; 32])
    }
}

impl Clear for u64 {
    open spec fn spec_is_clear(&self) -> bool {
        *self == 0
    }

    fn is_clear(&self) -> (r: bool) {
        *self == 0
    }

    fn clear() -> (r: Self) {
        0
    }
}

impl Clear for u32 {
    open spec fn spec_is_clear(&self) -> bool {
        *self == 0
    }

    fn is_clear(&self) -> (r: bool) {
        *self == 0
    }

    fn clear() -> (r: Self) {
        0
    }
}

impl Clear for u16 {
    open spec fn spec_is_clear(&self) -> bool {
        *self == 0
    }

    fn is_clear(&self) -> (r: bool) {
        *self == 0
    }

    fn clear() -> (r: Self) {
        0
    }
}

impl Clear for u8 {
    open spec fn spec_is_clear(&self) -> bool {
        *self == 0
    }

    fn is_clear(&self) -> (r: bool) {
        *self == 0
    }

    fn clear() -> (r: Self) {
        0
    }
}

impl Clear for u128 {
    open spec fn spec_is_clear(&self) -> bool {
        *self == 0
    }

    fn is_clear(&self) -> (r: bool) {
        *self == 0
    }

    fn clear() -> (r: Self) {
        0
    }
}

impl Hash256 {
    /// The bitwise and of two digests.
    pub fn bit_and(&self, other: &Hash256) -> (r: Hash256)
        ensures
            r@.len() == 32,
            forall|i: int| 0 <= i < 32 ==> r@[i] == (self@[i] & other@[i]),
    {
        let mut out = [0u8; 32];
        let mut i: usize = 0;
        while i < 32
            invariant
                i <= 32,
                out@.len() == 32,
                forall|j: int| 0 <= j < i ==> out@[j] == (self@[j] & other@[j]),
            decreases 32 - i,
        {
            out.set(i, self.0[i] & other.0[i]);
            i += 1;
        }
        Hash256(out)
    }

    /// The bitwise or of two digests.
    pub fn bit_or(&self, other: &Hash256) -> (r: Hash256)
        ensures
            r@.len() == 32,
            forall|i: int| 0 <= i < 32 ==> r@[i] == (self@[i] | other@[i]),
    {
        let mut out = [0u8; 32];
        let mut i: usize = 0;
        while i < 32
            invariant
                i <= 32,
                out@.len() == 32,
                forall|j: int| 0 <= j < i ==> out@[j] == (self@[j] | other@[j]),
            decreases 32 - i,
        {
            out.set(i, self.0[i] | other.0[i]);
            i += 1;
        }
        Hash256(out)
    }

    /// The bitwise exclusive or of two digests.
    pub fn bit_xor(&self, other: &Hash256) -> (r: Hash256)
        ensures
            r@.len() == 32,
            forall|i: int| 0 <= i < 32 ==> r@[i] == (self@[i] ^ other@[i]),
    {
        let mut out = [0u8; 32];
        let mut i: usize = 0;
        while i < 32
            invariant
                i <= 32,
                out@.len() == 32,
                forall|j: int| 0 <= j < i ==> out@[j] == (self@[j] ^ other@[j]),
            decreases 32 - i,
        {
            out.set(i, self.0[i] ^ other.0[i]);
            i += 1;
        }
        Hash256(out)
    }

    /// Whether two digests hold the same bytes.
    pub fn same_bytes(&self, other: &Hash256) -> (r: bool)
        ensures
            r <==> self@ == other@,
    {
        bytes_equal(self.0.as_slice(), other.0.as_slice())
    }
}

/// A meta capability for digest types: clearable and bit-op-comparable.
pub trait SimpleBitOps: Clear {
    /// The bitwise and of two values.
    fn bitand_with(&self, other: &Self) -> Self;

    /// The bitwise or of two values.
    fn bitor_with(&self, other: &Self) -> Self;

    /// The bitwise exclusive or of two values.
    fn bitxor_with(&self, other: &Self) -> Self;
}

impl SimpleBitOps for Hash256 {
    fn bitand_with(&self, other: &Self) -> Self {
        self.bit_and(other)
    }

    fn bitor_with(&self, other: &Self) -> Self {
        self.bit_or(other)
    }

    fn bitxor_with(&self, other: &Self) -> Self {
        self.bit_xor(other)
    }
}

/// The keyed mapping a list of key-value byte pairs describes: pairs are
/// taken in order, a later pair with the same key replacing an earlier one.
pub open spec fn pairs_to_map(s: Seq<(Vec<u8>, Vec<u8>)>) -> Map<Seq<u8>, Seq<u8>>
    decreases s.len(),
{
    if s.len() == 0 {
        Map::empty()
    } else {
        pairs_to_map(s.drop_last()).insert(s.last().0@, s.last().1@)
    }
}

/// The root digest of the canonical keyed digest structure holding the
/// mapping `m`. A function of the mapping alone: the same key set with the
/// same values gives the same root, in whatever order the pairs arrive.
pub uninterp spec fn blake2_256_trie_root_of(m: Map<Seq<u8>, Seq<u8>>) -> [u8; 32];

/// The root digest of the canonical ordered digest structure holding the
/// byte strings `input`, a function of their order and content.
pub uninterp spec fn blake2_256_ordered_root_of(input: Seq<Seq<u8>>) -> [u8; 32];

/// Relies on `sp_io::trie::blake2_256_root`: the keyed trie root of the
/// pairs, computed in its original layout; the result depends only on the
/// key-to-value mapping the pairs describe.
#[verifier::external_body]
fn blake2_256_trie_root(pairs: &Vec<(Vec<u8>, Vec<u8>)>) -> (r: [u8; 32])
    ensures
        r == blake2_256_trie_root_of(pairs_to_map(pairs@)),
{
    sp_io::trie::blake2_256_root(pairs.clone(), sp_core::storage::StateVersion::V0).0
}

/// Relies on `sp_io::trie::blake2_256_ordered_root`: the ordered trie root
/// of the byte strings, computed in its original layout; the result depends
/// only on their order and content.
#[verifier::external_body]
fn blake2_256_ordered_root(input: &Vec<Vec<u8>>) -> (r: [u8; 32])
    ensures
        r == blake2_256_ordered_root_of(input.deep_view()),
{
    sp_io::trie::blake2_256_ordered_root(input.clone(), sp_core::storage::StateVersion::V0).0
}

/// Abstraction around hashing: a pure content-addressing function and the
/// two root computations, all deterministic and free of failure modes.
pub trait Hash: Sized {
    /// The digest type produced.
    type Output;

    /// What [`Hash::hash`] produces.
    spec fn spec_hash(s: Seq<u8>) -> Self::Output;

    /// What [`Hash::ordered_trie_root`] produces.
    spec fn spec_ordered_trie_root(input: Seq<Seq<u8>>) -> Self::Output;

    /// What [`Hash::trie_root`] produces; a function of the keyed mapping
    /// the pairs describe, not of their order.
    spec fn spec_trie_root(m: Map<Seq<u8>, Seq<u8>>) -> Self::Output;

    /// Produce the digest of a byte slice.
    fn hash(s: &[u8]) -> (r: Self::Output)
        ensures
            r == Self::spec_hash(s@),
    ;

    /// Produce the digest of an encodable value's encoding.
    fn hash_of<S: Encode>(s: &S) -> (r: Self::Output)
        ensures
            r == Self::spec_hash(s.spec_encode()),
    {
        let e = s.encode();
        Self::hash(e.as_slice())
    }

    /// The ordered root of the given byte strings.
    fn ordered_trie_root(input: Vec<Vec<u8>>) -> (r: Self::Output)
        ensures
            r == Self::spec_ordered_trie_root(input.deep_view()),
    ;

    /// The keyed root of the given mapping.
    fn trie_root(input: Vec<(Vec<u8>, Vec<u8>)>) -> (r: Self::Output)
        ensures
            r == Self::spec_trie_root(pairs_to_map(input@)),
    ;
}

/// Blake2b-256 as the hashing abstraction.
#[derive(Clone, Copy, PartialEq, Eq, Structural, Debug)]
pub struct BlakeTwo256;

impl Hash for BlakeTwo256 {
    type Output = Hash256;

    open spec fn spec_hash(s: Seq<u8>) -> Hash256 {
        Hash256(blake2_256_of(s))
    }

    open spec fn spec_ordered_trie_root(input: Seq<Seq<u8>>) -> Hash256 {
        Hash256(blake2_256_ordered_root_of(input))
    }

    open spec fn spec_trie_root(m: Map<Seq<u8>, Seq<u8>>) -> Hash256 {
        Hash256(blake2_256_trie_root_of(m))
    }

    fn hash(s: &[u8]) -> (r: Hash256) {
        Hash256(blake2_256(s))
    }

    fn ordered_trie_root(input: Vec<Vec<u8>>) -> (r: Hash256) {
        Hash256(blake2_256_ordered_root(&input))
    }

    fn trie_root(input: Vec<(Vec<u8>, Vec<u8>)>) -> (r: Hash256) {
        Hash256(blake2_256_trie_root(&input))
    }
}

} // verus!
