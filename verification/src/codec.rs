//! The encode/decode capability values must offer to take part in
//! sub-account derivation: a deterministic, fixed-width, little-endian byte
//! form.

use vstd::prelude::*;
use crate::input::{zero_extended, consumed, CodecError, Input};

verus! {

/// A value with a deterministic byte encoding.
pub trait Encode {
    /// The bytes the value encodes to.
    spec fn spec_encode(&self) -> Seq<u8>;

    /// Produce the value's encoding.
    fn encode(&self) -> (r: Vec<u8>)
        ensures
            r@ == self.spec_encode(),
    ;
}

/// A value readable back from its byte encoding.
///
/// Every decodable type occupies a fixed number of bytes,
/// [`Decode::encoded_len`], and its meaning as a value is a total function
/// of those bytes, [`Decode::from_bytes`].
pub trait Decode: Sized {
    /// How many bytes a value of this type occupies.
    spec fn encoded_len() -> nat;

    /// The value that a byte string of length [`Decode::encoded_len`]
    /// stands for.
    spec fn from_bytes(b: Seq<u8>) -> Self;

    /// Read one value from `input`.
    ///
    /// A padded source always yields a value (missing bytes read as zero); a
    /// finite source must hold at least [`Decode::encoded_len`] bytes, and
    /// is left untouched when it does not.
    fn decode<I: Input>(input: &mut I) -> (r: Result<Self, CodecError>)
        ensures
            final(input).padded() == old(input).padded(),
            final(input).len_known() == old(input).len_known(),
            r is Ok <==> (old(input).padded() || Self::encoded_len() <= old(input).data().len()),
            r matches Ok(v) ==> v == Self::from_bytes(
                zero_extended(old(input).data(), Self::encoded_len()),
            ) && final(input).data() == consumed(old(input).data(), Self::encoded_len()),
            r is Err ==> *final(input) == *old(input),
    ;
}

/// A value that encodes and decodes, with the two directions agreeing.
pub trait Codec: Encode + Decode {
    /// Encoding always produces exactly [`Decode::encoded_len`] bytes.
    proof fn lemma_encode_len(&self)
        ensures
            self.spec_encode().len() == Self::encoded_len(),
    ;

    /// Reading back a value's own encoding recovers the value.
    proof fn lemma_decode_encode(&self)
        ensures
            Self::from_bytes(self.spec_encode()) == *self,
    ;

    /// Encoding the value a byte string stands for reproduces that byte
    /// string.
    proof fn lemma_encode_decode(b: Seq<u8>)
        requires
            b.len() == Self::encoded_len(),
        ensures
            Self::from_bytes(b).spec_encode() == b,
    ;
}

/// A value with a distinguished fallback, used where a computation must not
/// fail.
pub trait DefaultValue: Sized {
    /// The fallback value.
    spec fn spec_default() -> Self;

    /// Produce the fallback value.
    fn default_value() -> (r: Self)
        ensures
            r == Self::spec_default(),
    ;
}

impl Encode for () {
    open spec fn spec_encode(&self) -> Seq<u8> {
        Seq::empty()
    }

    fn encode(&self) -> (r: Vec<u8>) {
        let r: Vec<u8> = Vec::new();
        proof {
            assert(r@ =~= Seq::<u8>::empty());
        }
        r
    }
}

impl Decode for () {
    open spec fn encoded_len() -> nat {
        0
    }

    open spec fn from_bytes(b: Seq<u8>) -> Self {
        ()
    }

    fn decode<I: Input>(input: &mut I) -> (r: Result<Self, CodecError>) {
        proof {
            assert(consumed(input.data(), 0) =~= input.data());
        }
        Ok(())
    }
}

impl Codec for () {
    proof fn lemma_encode_len(&self) {
    }

    proof fn lemma_decode_encode(&self) {
    }

    proof fn lemma_encode_decode(b: Seq<u8>) {
        assert(Self::from_bytes(b).spec_encode() =~= b);
    }
}

impl DefaultValue for () {
    open spec fn spec_default() -> Self {
        ()
    }

    fn default_value() -> (r: Self) {
        ()
    }
}

impl Encode for u8 {
    open spec fn spec_encode(&self) -> Seq<u8> {
        seq![*self]
    }

    fn encode(&self) -> (r: Vec<u8>) {
        let mut r: Vec<u8> = Vec::new();
        r.push(*self);
        proof {
            assert(r@ =~= seq![*self]);
        }
        r
    }
}

impl Decode for u8 {
    open spec fn encoded_len() -> nat {
        1
    }

    open spec fn from_bytes(b: Seq<u8>) -> Self {
        b[0]
    }

    fn decode<I: Input>(input: &mut I) -> (r: Result<Self, CodecError>) {
        let mut buf: Vec<u8> = Vec::new();
        buf.push(0u8);
        match input.read(&mut buf) {
            Ok(()) => Ok(buf[0]),
            Err(e) => Err(e),
        }
    }
}

impl Codec for u8 {
    proof fn lemma_encode_len(&self) {
    }

    proof fn lemma_decode_encode(&self) {
    }

    proof fn lemma_encode_decode(b: Seq<u8>) {
        assert(Self::from_bytes(b).spec_encode() =~= b);
    }
}

impl DefaultValue for u8 {
    open spec fn spec_default() -> Self {
        0
    }

    fn default_value() -> (r: Self) {
        0
    }
}

impl Encode for u16 {
    open spec fn spec_encode(&self) -> Seq<u8> {
        let x = *self;
        seq![(x & 0xff) as u8, ((x >> 8) & 0xff) as u8]
    }

    fn encode(&self) -> (r: Vec<u8>) {
        let x = *self;
        let mut r: Vec<u8> = Vec::new();
        r.push((x & 0xff) as u8);
        r.push(((x >> 8) & 0xff) as u8);
        proof {
            assert(r@ =~= self.spec_encode());
        }
        r
    }
}

impl Decode for u16 {
    open spec fn encoded_len() -> nat {
        2
    }

    open spec fn from_bytes(b: Seq<u8>) -> Self {
        (b[0] as u16) | ((b[1] as u16) << 8)
    }

    fn decode<I: Input>(input: &mut I) -> (r: Result<Self, CodecError>) {
        let mut buf: Vec<u8> = Vec::new();
        buf.push(0u8);
        buf.push(0u8);
        match input.read(&mut buf) {
            Ok(()) => Ok((buf[0] as u16) | ((buf[1] as u16) << 8)),
            Err(e) => Err(e),
        }
    }
}

impl Codec for u16 {
    proof fn lemma_encode_len(&self) {
    }

    proof fn lemma_decode_encode(&self) {
        let x = *self;
        assert((((x & 0xff) as u8) as u16) | (((((x >> 8) & 0xff) as u8) as u16) << 8) == x)
            by (bit_vector);
    }

    proof fn lemma_encode_decode(b: Seq<u8>) {
        let b0 = b[0];
        let b1 = b[1];
        let y = (b0 as u16) | ((b1 as u16) << 8);
        assert((y & 0xff) as u8 == b0 && ((y >> 8) & 0xff) as u8 == b1) by (bit_vector)
            requires
                y == (b0 as u16) | ((b1 as u16) << 8),
        ;
        assert(Self::from_bytes(b).spec_encode() =~= b);
    }
}

impl DefaultValue for u16 {
    open spec fn spec_default() -> Self {
        0
    }

    fn default_value() -> (r: Self) {
        0
    }
}

impl Encode for u32 {
    open spec fn spec_encode(&self) -> Seq<u8> {
        let x = *self;
        seq![
            (x & 0xff) as u8,
            ((x >> 8) & 0xff) as u8,
            ((x >> 16) & 0xff) as u8,
            ((x >> 24) & 0xff) as u8,
        ]
    }

    fn encode(&self) -> (r: Vec<u8>) {
        let x = *self;
        let mut r: Vec<u8> = Vec::new();
        r.push((x & 0xff) as u8);
        r.push(((x >> 8) & 0xff) as u8);
        r.push(((x >> 16) & 0xff) as u8);
        r.push(((x >> 24) & 0xff) as u8);
        proof {
            assert(r@ =~= self.spec_encode());
        }
        r
    }
}

impl Decode for u32 {
    open spec fn encoded_len() -> nat {
        4
    }

    open spec fn from_bytes(b: Seq<u8>) -> Self {
        (b[0] as u32) | ((b[1] as u32) << 8) | ((b[2] as u32) << 16) | ((b[3] as u32) << 24)
    }

    fn decode<I: Input>(input: &mut I) -> (r: Result<Self, CodecError>) {
        let mut buf: Vec<u8> = Vec::new();
        buf.push(0u8);
        buf.push(0u8);
        buf.push(0u8);
        buf.push(0u8);
        match input.read(&mut buf) {
            Ok(()) => Ok(
                (buf[0] as u32) | ((buf[1] as u32) << 8) | ((buf[2] as u32) << 16) | ((buf[3]
                    as u32) << 24),
            ),
            Err(e) => Err(e),
        }
    }
}

impl Codec for u32 {
    proof fn lemma_encode_len(&self) {
    }

    proof fn lemma_decode_encode(&self) {
        let x = *self;
        assert((((x & 0xff) as u8) as u32) | (((((x >> 8) & 0xff) as u8) as u32) << 8) | (((((x
            >> 16) & 0xff) as u8) as u32) << 16) | (((((x >> 24) & 0xff) as u8) as u32) << 24)
            == x) by (bit_vector);
    }

    proof fn lemma_encode_decode(b: Seq<u8>) {
        let b0 = b[0];
        let b1 = b[1];
        let b2 = b[2];
        let b3 = b[3];
        let y = (b0 as u32) | ((b1 as u32) << 8) | ((b2 as u32) << 16) | ((b3 as u32) << 24);
        assert((y & 0xff) as u8 == b0 && ((y >> 8) & 0xff) as u8 == b1 && ((y >> 16) & 0xff) as u8
            == b2 && ((y >> 24) & 0xff) as u8 == b3) by (bit_vector)
            requires
                y == (b0 as u32) | ((b1 as u32) << 8) | ((b2 as u32) << 16) | ((b3 as u32) << 24),
        ;
        assert(Self::from_bytes(b).spec_encode() =~= b);
    }
}

impl DefaultValue for u32 {
    open spec fn spec_default() -> Self {
        0
    }

    fn default_value() -> (r: Self) {
        0
    }
}

impl Encode for u64 {
    open spec fn spec_encode(&self) -> Seq<u8> {
        let x = *self;
        seq![
            (x & 0xff) as u8,
            ((x >> 8) & 0xff) as u8,
            ((x >> 16) & 0xff) as u8,
            ((x >> 24) & 0xff) as u8,
            ((x >> 32) & 0xff) as u8,
            ((x >> 40) & 0xff) as u8,
            ((x >> 48) & 0xff) as u8,
            ((x >> 56) & 0xff) as u8,
        ]
    }

    fn encode(&self) -> (r: Vec<u8>) {
        let x = *self;
        let mut r: Vec<u8> = Vec::new();
        r.push((x & 0xff) as u8);
        r.push(((x >> 8) & 0xff) as u8);
        r.push(((x >> 16) & 0xff) as u8);
        r.push(((x >> 24) & 0xff) as u8);
        r.push(((x >> 32) & 0xff) as u8);
        r.push(((x >> 40) & 0xff) as u8);
        r.push(((x >> 48) & 0xff) as u8);
        r.push(((x >> 56) & 0xff) as u8);
        proof {
            assert(r@ =~= self.spec_encode());
        }
        r
    }
}

impl Decode for u64 {
    open spec fn encoded_len() -> nat {
        8
    }

    open spec fn from_bytes(b: Seq<u8>) -> Self {
        (b[0] as u64) | ((b[1] as u64) << 8) | ((b[2] as u64) << 16) | ((b[3] as u64) << 24) | ((
        b[4] as u64) << 32) | ((b[5] as u64) << 40) | ((b[6] as u64) << 48) | ((b[7] as u64) << 56)
    }

    fn decode<I: Input>(input: &mut I) -> (r: Result<Self, CodecError>) {
        let mut buf: Vec<u8> = Vec::new();
        let mut z: usize = 0;
        while z < 8
            invariant
                z <= 8,
                buf@.len() == z,
            decreases 8 - z,
        {
            buf.push(0u8);
            z += 1;
        }
        match input.read(&mut buf) {
            Ok(()) => Ok(
                (buf[0] as u64) | ((buf[1] as u64) << 8) | ((buf[2] as u64) << 16) | ((buf[3]
                    as u64) << 24) | ((buf[4] as u64) << 32) | ((buf[5] as u64) << 40) | ((buf[6]
                    as u64) << 48) | ((buf[7] as u64) << 56),
            ),
            Err(e) => Err(e),
        }
    }
}

impl Codec for u64 {
    proof fn lemma_encode_len(&self) {
    }

    proof fn lemma_decode_encode(&self) {
        let x = *self;
        assert((((x & 0xff) as u8) as u64) | (((((x >> 8) & 0xff) as u8) as u64) << 8) | (((((x
            >> 16) & 0xff) as u8) as u64) << 16) | (((((x >> 24) & 0xff) as u8) as u64) << 24)
            | (((((x >> 32) & 0xff) as u8) as u64) << 32) | (((((x >> 40) & 0xff) as u8) as u64)
            << 40) | (((((x >> 48) & 0xff) as u8) as u64) << 48) | (((((x >> 56) & 0xff) as u8)
            as u64) << 56) == x) by (bit_vector);
    }

    proof fn lemma_encode_decode(b: Seq<u8>) {
        let b0 = b[0];
        let b1 = b[1];
        let b2 = b[2];
        let b3 = b[3];
        let b4 = b[4];
        let b5 = b[5];
        let b6 = b[6];
        let b7 = b[7];
        let y = (b0 as u64) | ((b1 as u64) << 8) | ((b2 as u64) << 16) | ((b3 as u64) << 24) | ((
        b4 as u64) << 32) | ((b5 as u64) << 40) | ((b6 as u64) << 48) | ((b7 as u64) << 56);
        assert((y & 0xff) as u8 == b0 && ((y >> 8) & 0xff) as u8 == b1 && ((y >> 16) & 0xff) as u8
            == b2 && ((y >> 24) & 0xff) as u8 == b3 && ((y >> 32) & 0xff) as u8 == b4 && ((y >> 40)
            & 0xff) as u8 == b5 && ((y >> 48) & 0xff) as u8 == b6 && ((y >> 56) & 0xff) as u8 == b7)
            by (bit_vector)
            requires
                y == (b0 as u64) | ((b1 as u64) << 8) | ((b2 as u64) << 16) | ((b3 as u64) << 24)
                    | ((b4 as u64) << 32) | ((b5 as u64) << 40) | ((b6 as u64) << 48) | ((b7
                    as u64) << 56),
        ;
        assert(Self::from_bytes(b).spec_encode() =~= b);
    }
}

impl DefaultValue for u64 {
    open spec fn spec_default() -> Self {
        0
    }

    fn default_value() -> (r: Self) {
        0
    }
}

} // verus!
