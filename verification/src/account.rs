//! Deterministic sub-account derivation: minting an account identifier from
//! a type tag, a source value and an auxiliary sub-value, and the
//! conservative reverse mapping that only accepts canonical identifiers.

use vstd::prelude::*;
use crate::codec::{Codec, Decode, DefaultValue, Encode};
use crate::input::{consumed, zero_extended, ByteInput, Input, TrailingZeroInput};

verus! {

/// A type that owns a four-byte derivation namespace.
///
/// The tag is a compile-time constant of the type: two values of one type
/// always carry the same tag.
pub trait TypeId {
    /// The namespace tag.
    spec fn spec_type_id() -> Seq<u8>;

    /// The tag is exactly four bytes.
    proof fn lemma_type_id_len()
        ensures
            Self::spec_type_id().len() == 4,
    ;

    /// Produce the namespace tag.
    fn type_id() -> (r: [u8; 4])
        ensures
            r@ == Self::spec_type_id(),
    ;
}

/// This type can be converted into and possibly from an account identifier.
///
/// Forward derivation is infallible: the tuple (tag, source, sub-value) is
/// encoded and the identifier is read from those bytes extended with zeros.
/// Reverse derivation is conservative: it demands the exact tag and that
/// every byte the decode leaves behind is zero.
pub trait AccountIdConversion<AccountId>: Sized {
    /// The identifier minted from `self` and a sub-value whose encoding is
    /// `sub_enc`.
    spec fn spec_into_sub_account_bytes(&self, sub_enc: Seq<u8>) -> AccountId;

    /// The source value and the raw sub-value bytes recovered from `x`, when
    /// `x` is a canonical identifier derived with a sub-value of width
    /// `sub_len`.
    spec fn spec_try_from_sub_account(x: &AccountId, sub_len: nat) -> Option<(Self, Seq<u8>)>;

    /// Mint an account identifier from `self` amalgamated with a secondary
    /// sub-value. This is infallible.
    ///
    /// Identifiers minted from different sub-values are not guaranteed to be
    /// distinct: sub-values differing only in trailing zeros mint the same
    /// identifier.
    fn into_sub_account<S: Encode>(&self, sub: &S) -> (r: AccountId)
        ensures
            r == self.spec_into_sub_account_bytes(sub.spec_encode()),
    ;

    /// Try to recover the source and sub-value from an identifier. Might not
    /// succeed.
    fn try_from_sub_account<S: Codec>(x: &AccountId) -> (r: Option<(Self, S)>)
        ensures
            r == match Self::spec_try_from_sub_account(x, S::encoded_len()) {
                Some(p) => Some((p.0, S::from_bytes(p.1))),
                None => None,
            },
    ;

    /// Mint an account identifier from `self` alone.
    fn into_account(&self) -> (r: AccountId)
        ensures
            r == self.spec_into_sub_account_bytes(Seq::empty()),
    {
        self.into_sub_account(&())
    }

    /// Try to recover the source value from an identifier. Might not
    /// succeed.
    fn try_from_account(x: &AccountId) -> (r: Option<Self>)
        ensures
            r == match Self::spec_try_from_sub_account(x, 0) {
                Some(p) => Some(p.0),
                None => None,
            },
    {
        match Self::try_from_sub_account::<()>(x) {
            Some(p) => Some(p.0),
            None => None,
        }
    }
}

/// The identifier bytes are the tag, the encoded source and the encoded
/// sub-value, zero-filled up to the identifier type's own width.
impl<T: Codec + DefaultValue, Id: Codec + TypeId> AccountIdConversion<T> for Id {
    open spec fn spec_into_sub_account_bytes(&self, sub_enc: Seq<u8>) -> T {
        T::from_bytes(
            zero_extended(Id::spec_type_id() + self.spec_encode() + sub_enc, T::encoded_len()),
        )
    }

    open spec fn spec_try_from_sub_account(x: &T, sub_len: nat) -> Option<(Id, Seq<u8>)> {
        let d = x.spec_encode();
        let used = 4 + Id::encoded_len() + sub_len;
        if d.len() < 4 {
            None
        } else if d.take(4) != Id::spec_type_id() {
            None
        } else if d.len() < used {
            None
        } else if exists|i: int| used <= i < d.len() && d[i] != 0 {
            None
        } else {
            Some(
                (
                    Id::from_bytes(d.subrange(4, 4 + Id::encoded_len() as int)),
                    d.subrange(4 + Id::encoded_len() as int, used as int),
                ),
            )
        }
    }

    fn into_sub_account<S: Encode>(&self, sub: &S) -> (r: T) {
        proof {
            Id::lemma_type_id_len();
        }
        let tag = Id::type_id();
        let mut b: Vec<u8> = Vec::new();
        b.push(tag[0]);
        b.push(tag[1]);
        b.push(tag[2]);
        b.push(tag[3]);
        let mut enc_self = self.encode();
        b.append(&mut enc_self);
        let mut enc_sub = sub.encode();
        b.append(&mut enc_sub);
        proof {
            assert(b@ =~= Id::spec_type_id() + self.spec_encode() + sub.spec_encode());
        }
        let mut padded_input = TrailingZeroInput::new(b);
        match T::decode(&mut padded_input) {
            Ok(v) => v,
            Err(_) => T::default_value(),
        }
    }

    fn try_from_sub_account<S: Codec>(x: &T) -> (r: Option<(Id, S)>) {
        let ghost iw = Id::encoded_len();
        let ghost sw = S::encoded_len();
        let d = x.encode();
        if d.len() < 4 {
            return None;
        }
        proof {
            Id::lemma_type_id_len();
        }
        let tag = Id::type_id();
        if d[0] != tag[0] || d[1] != tag[1] || d[2] != tag[2] || d[3] != tag[3] {
            proof {
                let t = Id::spec_type_id();
                assert(d@.take(4) == t ==> d@.take(4)[0] == t[0] && d@.take(4)[1] == t[1]
                    && d@.take(4)[2] == t[2] && d@.take(4)[3] == t[3]);
            }
            return None;
        }
        proof {
            assert(d@.take(4) =~= Id::spec_type_id());
        }
        let mut tail: Vec<u8> = Vec::new();
        let mut i: usize = 4;
        while i < d.len()
            invariant
                4 <= i <= d@.len(),
                tail@ == d@.subrange(4, i as int),
            decreases d@.len() - i,
        {
            let byte = d[i];
            tail.push(byte);
            i += 1;
        }
        let ghost tail0 = tail@;
        proof {
            assert(tail0 == d@.subrange(4, d@.len() as int));
        }
        let mut cursor = ByteInput::new(tail);
        let id = match Id::decode(&mut cursor) {
            Ok(v) => v,
            Err(_) => {
                proof {
                    assert(d@.len() < 4 + iw + sw);
                }
                return None;
            },
        };
        proof {
            assert(zero_extended(tail0, iw) =~= d@.subrange(4, 4 + iw as int));
            assert(cursor.data() =~= d@.subrange(4 + iw as int, d@.len() as int));
        }
        let ghost mid = cursor.data();
        let sub_value = match S::decode(&mut cursor) {
            Ok(v) => v,
            Err(_) => {
                proof {
                    assert(d@.len() < 4 + iw + sw);
                }
                return None;
            },
        };
        proof {
            assert(zero_extended(mid, sw) =~= d@.subrange(4 + iw as int, (4 + iw + sw) as int));
            assert(cursor.data() =~= d@.subrange((4 + iw + sw) as int, d@.len() as int));
        }
        if cursor.all_remaining_zero() {
            proof {
                let used = 4 + iw + sw;
                assert(forall|k: int|
                    used <= k < d@.len() ==> #[trigger] d@[k] == cursor.data()[k - used as int]);
            }
            Some((id, sub_value))
        } else {
            proof {
                let used = 4 + iw + sw;
                let j = choose|j: int| 0 <= j < cursor.data().len() && cursor.data()[j] != 0;
                assert(d@[used as int + j] != 0);
            }
            None
        }
    }
}

/// Minting an identifier and reversing it recovers the source and the
/// sub-value exactly, whenever the tag and the two encodings fit within the
/// identifier type's own width.
pub proof fn lemma_sub_account_round_trip<T: Codec + DefaultValue, Id: Codec + TypeId, S: Codec>(
    id: Id,
    sub: S,
)
    requires
        4 + Id::encoded_len() + S::encoded_len() <= T::encoded_len(),
    ensures
        ({
            let derived = <Id as AccountIdConversion<T>>::spec_into_sub_account_bytes(
                &id,
                sub.spec_encode(),
            );
            &&& <Id as AccountIdConversion<T>>::spec_try_from_sub_account(
                &derived,
                S::encoded_len(),
            ) == Some((id, sub.spec_encode()))
            &&& S::from_bytes(sub.spec_encode()) == sub
        }),
{
    Id::lemma_type_id_len();
    id.lemma_encode_len();
    sub.lemma_encode_len();
    let b = Id::spec_type_id() + id.spec_encode() + sub.spec_encode();
    let full = zero_extended(b, T::encoded_len());
    let derived = T::from_bytes(full);
    T::lemma_encode_decode(full);
    let d = derived.spec_encode();
    assert(d == full);
    let used = 4 + Id::encoded_len() + S::encoded_len();
    assert(b.len() == used);
    assert(d.take(4) =~= Id::spec_type_id());
    assert(forall|i: int| used <= i < d.len() ==> d[i] == 0);
    assert(d.subrange(4, 4 + Id::encoded_len() as int) =~= id.spec_encode());
    assert(d.subrange(4 + Id::encoded_len() as int, used as int) =~= sub.spec_encode());
    id.lemma_decode_encode();
    sub.lemma_decode_encode();
}

/// Changing any trailing zero byte of a derived identifier to a nonzero
/// value makes reverse derivation reject it, although the tag and the
/// encoded prefix are untouched.
pub proof fn lemma_canonical_rejection<T: Codec + DefaultValue, Id: Codec + TypeId, S: Codec>(
    id: Id,
    sub: S,
    j: int,
    v: u8,
)
    requires
        4 + Id::encoded_len() + S::encoded_len() <= j < T::encoded_len(),
        v != 0,
    ensures
        ({
            let d = <Id as AccountIdConversion<T>>::spec_into_sub_account_bytes(
                &id,
                sub.spec_encode(),
            ).spec_encode();
            <Id as AccountIdConversion<T>>::spec_try_from_sub_account(
                &T::from_bytes(d.update(j, v)),
                S::encoded_len(),
            ) is None
        }),
{
    Id::lemma_type_id_len();
    id.lemma_encode_len();
    sub.lemma_encode_len();
    let b = Id::spec_type_id() + id.spec_encode() + sub.spec_encode();
    let full = zero_extended(b, T::encoded_len());
    let derived = T::from_bytes(full);
    T::lemma_encode_decode(full);
    let d = derived.spec_encode();
    assert(d == full);
    let mutated = d.update(j, v);
    assert(mutated.len() == T::encoded_len());
    T::lemma_encode_decode(mutated);
    let d2 = T::from_bytes(mutated).spec_encode();
    assert(d2 == mutated);
    let used = 4 + Id::encoded_len() + S::encoded_len();
    assert(d2[j] == v);
    assert(exists|i: int| used <= i < d2.len() && d2[i] != 0);
    if d2.len() < 4 {
    } else if d2.take(4) != Id::spec_type_id() {
    } else if d2.len() < used {
    } else {
        assert(<Id as AccountIdConversion<T>>::spec_try_from_sub_account(
            &T::from_bytes(mutated),
            S::encoded_len(),
        ) is None);
    }
}

/// Two types with distinct tags never both accept one identifier: the
/// four-byte prefix check is exact.
pub proof fn lemma_tag_discrimination<
    T: Codec + DefaultValue,
    Id1: Codec + TypeId,
    Id2: Codec + TypeId,
>(x: &T, sub_len1: nat, sub_len2: nat)
    requires
        Id1::spec_type_id() != Id2::spec_type_id(),
        <Id1 as AccountIdConversion<T>>::spec_try_from_sub_account(x, sub_len1) is Some,
    ensures
        <Id2 as AccountIdConversion<T>>::spec_try_from_sub_account(x, sub_len2) is None,
{
    let d = x.spec_encode();
    assert(d.len() >= 4 && d.take(4) == Id1::spec_type_id());
    assert(d.take(4) != Id2::spec_type_id());
}

/// A `u32` source value carrying its own derivation namespace.
#[derive(Clone, Copy, PartialEq, Eq, Structural, Debug)]
pub struct U32Value(pub u32);

impl Encode for U32Value {
    open spec fn spec_encode(&self) -> Seq<u8> {
        self.0.spec_encode()
    }

    fn encode(&self) -> (r: Vec<u8>) {
        self.0.encode()
    }
}

impl Decode for U32Value {
    open spec fn encoded_len() -> nat {
        4
    }

    open spec fn from_bytes(b: Seq<u8>) -> Self {
        U32Value(u32::from_bytes(b))
    }

    fn decode<I: crate::input::Input>(input: &mut I) -> (r: Result<Self, crate::input::CodecError>) {
        match u32::decode(input) {
            Ok(v) => Ok(U32Value(v)),
            Err(e) => Err(e),
        }
    }
}

impl Codec for U32Value {
    proof fn lemma_encode_len(&self) {
        self.0.lemma_encode_len();
    }

    proof fn lemma_decode_encode(&self) {
        self.0.lemma_decode_encode();
    }

    proof fn lemma_encode_decode(b: Seq<u8>) {
        u32::lemma_encode_decode(b);
    }
}

impl DefaultValue for U32Value {
    open spec fn spec_default() -> Self {
        U32Value(0)
    }

    fn default_value() -> (r: Self) {
        U32Value(0)
    }
}

impl TypeId for U32Value {
    open spec fn spec_type_id() -> Seq<u8> {
        seq![0x0du8, 0xf0u8, 0xfeu8, 0xcau8]
    }

    proof fn lemma_type_id_len() {
    }

    fn type_id() -> (r: [u8; 4]) {
        let r = [0x0du8, 0xf0u8, 0xfeu8, 0xcau8];
        proof {
            assert(r@ =~= Self::spec_type_id());
        }
        r
    }
}

/// A `u16` source value carrying its own derivation namespace.
#[derive(Clone, Copy, PartialEq, Eq, Structural, Debug)]
pub struct U16Value(pub u16);

impl Encode for U16Value {
    open spec fn spec_encode(&self) -> Seq<u8> {
        self.0.spec_encode()
    }

    fn encode(&self) -> (r: Vec<u8>) {
        self.0.encode()
    }
}

impl Decode for U16Value {
    open spec fn encoded_len() -> nat {
        2
    }

    open spec fn from_bytes(b: Seq<u8>) -> Self {
        U16Value(u16::from_bytes(b))
    }

    fn decode<I: crate::input::Input>(input: &mut I) -> (r: Result<Self, crate::input::CodecError>) {
        match u16::decode(input) {
            Ok(v) => Ok(U16Value(v)),
            Err(e) => Err(e),
        }
    }
}

impl Codec for U16Value {
    proof fn lemma_encode_len(&self) {
        self.0.lemma_encode_len();
    }

    proof fn lemma_decode_encode(&self) {
        self.0.lemma_decode_encode();
    }

    proof fn lemma_encode_decode(b: Seq<u8>) {
        u16::lemma_encode_decode(b);
    }
}

impl DefaultValue for U16Value {
    open spec fn spec_default() -> Self {
        U16Value(0)
    }

    fn default_value() -> (r: Self) {
        U16Value(0)
    }
}

impl TypeId for U16Value {
    open spec fn spec_type_id() -> Seq<u8> {
        seq![0xfeu8, 0xcau8, 0x0du8, 0xf0u8]
    }

    proof fn lemma_type_id_len() {
    }

    fn type_id() -> (r: [u8; 4]) {
        let r = [0xfeu8, 0xcau8, 0x0du8, 0xf0u8];
        proof {
            assert(r@ =~= Self::spec_type_id());
        }
        r
    }
}

} // verus!
