//! Utility traits around the core components: origin checks, identifier
//! lookups, conversions, arithmetic scaling, membership, opaque key sets,
//! block lifecycle hooks, and the runtime-api handle.

use vstd::prelude::*;
use core::marker::PhantomData;
use crate::codec::{Decode, DefaultValue};
use crate::crypto::copy_bytes;
use crate::input::zero_extended;
use crate::input::ByteInput;
use crate::block::{Block, NumberFor};
use crate::validity::LookupError;
use crate::BadOrigin;

verus! {

/// An identifier of a class of cryptographic keys: four bytes.
#[derive(Clone, Copy, PartialEq, Eq, Debug, Hash)]
pub struct KeyTypeId(pub [u8; 4]);

/// Some sort of check on the origin is performed by this object.
pub trait EnsureOrigin<OuterOrigin>: Sized {
    /// What a passed check yields.
    type Success;

    /// What [`EnsureOrigin::try_origin`] decides: the yield of a passed
    /// check, or the unconsumed origin of a failed one.
    spec fn spec_try_origin(o: OuterOrigin) -> Result<Self::Success, OuterOrigin>;

    /// Perform the origin check, handing the origin back on failure.
    fn try_origin(o: OuterOrigin) -> (r: Result<Self::Success, OuterOrigin>)
        ensures
            r == Self::spec_try_origin(o),
    ;

    /// Perform the origin check.
    fn ensure_origin(o: OuterOrigin) -> (r: Result<Self::Success, BadOrigin>)
        ensures
            r == match Self::spec_try_origin(o) {
                Ok(s) => Ok::<Self::Success, BadOrigin>(s),
                Err(_) => Err::<Self::Success, BadOrigin>(BadOrigin),
            },
    {
        match Self::try_origin(o) {
            Ok(s) => Ok(s),
            Err(_) => Err(BadOrigin),
        }
    }
}

/// Means of changing one type into another, in a manner dependent on the
/// source type and on context.
pub trait Lookup {
    /// Type to look up from.
    type Source;

    /// Type to look up into.
    type Target;

    /// What [`Lookup::lookup`] decides.
    spec fn spec_lookup(&self, s: Self::Source) -> Result<Self::Target, LookupError>;

    /// Attempt a lookup.
    fn lookup(&self, s: Self::Source) -> (r: Result<Self::Target, LookupError>)
        ensures
            r == self.spec_lookup(s),
    ;
}

/// Means of changing one type into another, requiring no context.
pub trait StaticLookup {
    /// Type to look up from.
    type Source;

    /// Type to look up into.
    type Target;

    /// What [`StaticLookup::lookup`] decides.
    spec fn spec_lookup(s: Self::Source) -> Result<Self::Target, LookupError>;

    /// What [`StaticLookup::unlookup`] produces.
    spec fn spec_unlookup(t: Self::Target) -> Self::Source;

    /// Attempt a lookup.
    fn lookup(s: Self::Source) -> (r: Result<Self::Target, LookupError>)
        ensures
            r == Self::spec_lookup(s),
    ;

    /// Convert from target back to source.
    fn unlookup(t: Self::Target) -> (r: Self::Source)
        ensures
            r == Self::spec_unlookup(t),
    ;
}

/// A lookup implementation returning the input value: it never fails.
pub struct IdentityLookup<T>(PhantomData<T>);

impl<T> IdentityLookup<T> {
    /// The identity lookup.
    pub fn new() -> Self {
        IdentityLookup(PhantomData)
    }
}

impl<T> StaticLookup for IdentityLookup<T> {
    type Source = T;

    type Target = T;

    open spec fn spec_lookup(s: T) -> Result<T, LookupError> {
        Ok(s)
    }

    open spec fn spec_unlookup(t: T) -> T {
        t
    }

    fn lookup(s: T) -> (r: Result<T, LookupError>) {
        Ok(s)
    }

    fn unlookup(t: T) -> (r: T) {
        t
    }
}

impl<T> Lookup for IdentityLookup<T> {
    type Source = T;

    type Target = T;

    open spec fn spec_lookup(&self, s: T) -> Result<T, LookupError> {
        Ok(s)
    }

    fn lookup(&self, s: T) -> (r: Result<T, LookupError>) {
        Ok(s)
    }
}

/// Extensible conversion: generic over both source and destination types.
pub trait Convert<A, B> {
    /// What [`Convert::convert`] produces.
    spec fn spec_convert(a: A) -> B;

    /// Make the conversion.
    fn convert(a: A) -> (r: B)
        ensures
            r == Self::spec_convert(a),
    ;
}

/// The unit converter discards its input and yields the fallback value.
impl<A, B: DefaultValue> Convert<A, B> for () {
    open spec fn spec_convert(a: A) -> B {
        B::spec_default()
    }

    fn convert(a: A) -> (r: B) {
        B::default_value()
    }
}

/// A structure that performs the identity conversion.
pub struct Identity;

impl<T> Convert<T, T> for Identity {
    open spec fn spec_convert(a: T) -> T {
        a
    }

    fn convert(a: T) -> (r: T) {
        a
    }
}

/// A structure that performs lossless numeric widening.
pub struct ConvertInto;

impl Convert<u8, u16> for ConvertInto {
    open spec fn spec_convert(a: u8) -> u16 {
        a as u16
    }

    fn convert(a: u8) -> (r: u16) {
        a as u16
    }
}

impl Convert<u16, u32> for ConvertInto {
    open spec fn spec_convert(a: u16) -> u32 {
        a as u32
    }

    fn convert(a: u16) -> (r: u32) {
        a as u32
    }
}

impl Convert<u32, u64> for ConvertInto {
    open spec fn spec_convert(a: u32) -> u64 {
        a as u64
    }

    fn convert(a: u32) -> (r: u64) {
        a as u64
    }
}

impl Convert<u64, u128> for ConvertInto {
    open spec fn spec_convert(a: u64) -> u128 {
        a as u128
    }

    fn convert(a: u64) -> (r: u128) {
        a as u128
    }
}

/// Convenience trait for invoking the fallible standard conversions with
/// the destination type named by turbofish. Nothing is stated of the
/// results beyond what the standard traits give.
pub trait CheckedConversion: Sized {
    /// Convert from a value of `T` into an equivalent instance of
    /// `Option<Self>`.
    fn checked_from<T>(t: T) -> Option<Self> where Self: TryFrom<T> {
        match <Self as TryFrom<T>>::try_from(t) {
            Ok(v) => Some(v),
            Err(_) => None,
        }
    }

    /// Consume self to return `Some` equivalent value of `Option<T>`.
    fn checked_into<T>(self) -> Option<T> where Self: TryInto<T> {
        match <Self as TryInto<T>>::try_into(self) {
            Ok(v) => Some(v),
            Err(_) => None,
        }
    }
}

impl<T: Sized> CheckedConversion for T {

}

/// Multiply and divide by a number that is not necessarily of the same
/// type.
pub trait Scale<Other>: Sized {
    /// The type of the results.
    type Output;

    /// The product, where it is representable.
    spec fn spec_scale_mul(self, other: Other) -> Self::Output;

    /// Whether the product is representable.
    spec fn mul_in_range(self, other: Other) -> bool;

    /// The integer quotient, for a nonzero divisor.
    spec fn spec_scale_div(self, other: Other) -> Self::Output;

    /// Whether the divisor admits division.
    spec fn div_defined(self, other: Other) -> bool;

    /// The remainder, for a nonzero divisor.
    spec fn spec_scale_rem(self, other: Other) -> Self::Output;

    /// The product of `self` and `other`.
    fn mul(self, other: Other) -> (r: Self::Output)
        requires
            self.mul_in_range(other),
        ensures
            r == self.spec_scale_mul(other),
    ;

    /// The integer division of `self` by `other`.
    fn div(self, other: Other) -> (r: Self::Output)
        requires
            self.div_defined(other),
        ensures
            r == self.spec_scale_div(other),
    ;

    /// The remainder of `self` modulo `other`.
    fn rem(self, other: Other) -> (r: Self::Output)
        requires
            self.div_defined(other),
        ensures
            r == self.spec_scale_rem(other),
    ;
}

impl Scale<u128> for u128 {
    type Output = u128;

    open spec fn spec_scale_mul(self, other: u128) -> u128 {
        (self * (other as u128)) as u128
    }

    open spec fn mul_in_range(self, other: u128) -> bool {
        self * (other as u128) <= u128::MAX
    }

    open spec fn spec_scale_div(self, other: u128) -> u128 {
        self / (other as u128)
    }

    open spec fn div_defined(self, other: u128) -> bool {
        other != 0
    }

    open spec fn spec_scale_rem(self, other: u128) -> u128 {
        self % (other as u128)
    }

    fn mul(self, other: u128) -> (r: u128) {
        self * (other as u128)
    }

    fn div(self, other: u128) -> (r: u128) {
        self / (other as u128)
    }

    fn rem(self, other: u128) -> (r: u128) {
        self % (other as u128)
    }
}

impl Scale<u64> for u128 {
    type Output = u128;

    open spec fn spec_scale_mul(self, other: u64) -> u128 {
        (self * (other as u128)) as u128
    }

    open spec fn mul_in_range(self, other: u64) -> bool {
        self * (other as u128) <= u128::MAX
    }

    open spec fn spec_scale_div(self, other: u64) -> u128 {
        self / (other as u128)
    }

    open spec fn div_defined(self, other: u64) -> bool {
        other != 0
    }

    open spec fn spec_scale_rem(self, other: u64) -> u128 {
        self % (other as u128)
    }

    fn mul(self, other: u64) -> (r: u128) {
        self * (other as u128)
    }

    fn div(self, other: u64) -> (r: u128) {
        self / (other as u128)
    }

    fn rem(self, other: u64) -> (r: u128) {
        self % (other as u128)
    }
}

impl Scale<u32> for u128 {
    type Output = u128;

    open spec fn spec_scale_mul(self, other: u32) -> u128 {
        (self * (other as u128)) as u128
    }

    open spec fn mul_in_range(self, other: u32) -> bool {
        self * (other as u128) <= u128::MAX
    }

    open spec fn spec_scale_div(self, other: u32) -> u128 {
        self / (other as u128)
    }

    open spec fn div_defined(self, other: u32) -> bool {
        other != 0
    }

    open spec fn spec_scale_rem(self, other: u32) -> u128 {
        self % (other as u128)
    }

    fn mul(self, other: u32) -> (r: u128) {
        self * (other as u128)
    }

    fn div(self, other: u32) -> (r: u128) {
        self / (other as u128)
    }

    fn rem(self, other: u32) -> (r: u128) {
        self % (other as u128)
    }
}

impl Scale<u16> for u128 {
    type Output = u128;

    open spec fn spec_scale_mul(self, other: u16) -> u128 {
        (self * (other as u128)) as u128
    }

    open spec fn mul_in_range(self, other: u16) -> bool {
        self * (other as u128) <= u128::MAX
    }

    open spec fn spec_scale_div(self, other: u16) -> u128 {
        self / (other as u128)
    }

    open spec fn div_defined(self, other: u16) -> bool {
        other != 0
    }

    open spec fn spec_scale_rem(self, other: u16) -> u128 {
        self % (other as u128)
    }

    fn mul(self, other: u16) -> (r: u128) {
        self * (other as u128)
    }

    fn div(self, other: u16) -> (r: u128) {
        self / (other as u128)
    }

    fn rem(self, other: u16) -> (r: u128) {
        self % (other as u128)
    }
}

impl Scale<u8> for u128 {
    type Output = u128;

    open spec fn spec_scale_mul(self, other: u8) -> u128 {
        (self * (other as u128)) as u128
    }

    open spec fn mul_in_range(self, other: u8) -> bool {
        self * (other as u128) <= u128::MAX
    }

    open spec fn spec_scale_div(self, other: u8) -> u128 {
        self / (other as u128)
    }

    open spec fn div_defined(self, other: u8) -> bool {
        other != 0
    }

    open spec fn spec_scale_rem(self, other: u8) -> u128 {
        self % (other as u128)
    }

    fn mul(self, other: u8) -> (r: u128) {
        self * (other as u128)
    }

    fn div(self, other: u8) -> (r: u128) {
        self / (other as u128)
    }

    fn rem(self, other: u8) -> (r: u128) {
        self % (other as u128)
    }
}

impl Scale<u64> for u64 {
    type Output = u64;

    open spec fn spec_scale_mul(self, other: u64) -> u64 {
        (self * (other as u64)) as u64
    }

    open spec fn mul_in_range(self, other: u64) -> bool {
        self * (other as u64) <= u64::MAX
    }

    open spec fn spec_scale_div(self, other: u64) -> u64 {
        self / (other as u64)
    }

    open spec fn div_defined(self, other: u64) -> bool {
        other != 0
    }

    open spec fn spec_scale_rem(self, other: u64) -> u64 {
        self % (other as u64)
    }

    fn mul(self, other: u64) -> (r: u64) {
        self * (other as u64)
    }

    fn div(self, other: u64) -> (r: u64) {
        self / (other as u64)
    }

    fn rem(self, other: u64) -> (r: u64) {
        self % (other as u64)
    }
}

impl Scale<u32> for u64 {
    type Output = u64;

    open spec fn spec_scale_mul(self, other: u32) -> u64 {
        (self * (other as u64)) as u64
    }

    open spec fn mul_in_range(self, other: u32) -> bool {
        self * (other as u64) <= u64::MAX
    }

    open spec fn spec_scale_div(self, other: u32) -> u64 {
        self / (other as u64)
    }

    open spec fn div_defined(self, other: u32) -> bool {
        other != 0
    }

    open spec fn spec_scale_rem(self, other: u32) -> u64 {
        self % (other as u64)
    }

    fn mul(self, other: u32) -> (r: u64) {
        self * (other as u64)
    }

    fn div(self, other: u32) -> (r: u64) {
        self / (other as u64)
    }

    fn rem(self, other: u32) -> (r: u64) {
        self % (other as u64)
    }
}

impl Scale<u16> for u64 {
    type Output = u64;

    open spec fn spec_scale_mul(self, other: u16) -> u64 {
        (self * (other as u64)) as u64
    }

    open spec fn mul_in_range(self, other: u16) -> bool {
        self * (other as u64) <= u64::MAX
    }

    open spec fn spec_scale_div(self, other: u16) -> u64 {
        self / (other as u64)
    }

    open spec fn div_defined(self, other: u16) -> bool {
        other != 0
    }

    open spec fn spec_scale_rem(self, other: u16) -> u64 {
        self % (other as u64)
    }

    fn mul(self, other: u16) -> (r: u64) {
        self * (other as u64)
    }

    fn div(self, other: u16) -> (r: u64) {
        self / (other as u64)
    }

    fn rem(self, other: u16) -> (r: u64) {
        self % (other as u64)
    }
}

impl Scale<u8> for u64 {
    type Output = u64;

    open spec fn spec_scale_mul(self, other: u8) -> u64 {
        (self * (other as u64)) as u64
    }

    open spec fn mul_in_range(self, other: u8) -> bool {
        self * (other as u64) <= u64::MAX
    }

    open spec fn spec_scale_div(self, other: u8) -> u64 {
        self / (other as u64)
    }

    open spec fn div_defined(self, other: u8) -> bool {
        other != 0
    }

    open spec fn spec_scale_rem(self, other: u8) -> u64 {
        self % (other as u64)
    }

    fn mul(self, other: u8) -> (r: u64) {
        self * (other as u64)
    }

    fn div(self, other: u8) -> (r: u64) {
        self / (other as u64)
    }

    fn rem(self, other: u8) -> (r: u64) {
        self % (other as u64)
    }
}

impl Scale<u32> for u32 {
    type Output = u32;

    open spec fn spec_scale_mul(self, other: u32) -> u32 {
        (self * (other as u32)) as u32
    }

    open spec fn mul_in_range(self, other: u32) -> bool {
        self * (other as u32) <= u32::MAX
    }

    open spec fn spec_scale_div(self, other: u32) -> u32 {
        self / (other as u32)
    }

    open spec fn div_defined(self, other: u32) -> bool {
        other != 0
    }

    open spec fn spec_scale_rem(self, other: u32) -> u32 {
        self % (other as u32)
    }

    fn mul(self, other: u32) -> (r: u32) {
        self * (other as u32)
    }

    fn div(self, other: u32) -> (r: u32) {
        self / (other as u32)
    }

    fn rem(self, other: u32) -> (r: u32) {
        self % (other as u32)
    }
}

impl Scale<u16> for u32 {
    type Output = u32;

    open spec fn spec_scale_mul(self, other: u16) -> u32 {
        (self * (other as u32)) as u32
    }

    open spec fn mul_in_range(self, other: u16) -> bool {
        self * (other as u32) <= u32::MAX
    }

    open spec fn spec_scale_div(self, other: u16) -> u32 {
        self / (other as u32)
    }

    open spec fn div_defined(self, other: u16) -> bool {
        other != 0
    }

    open spec fn spec_scale_rem(self, other: u16) -> u32 {
        self % (other as u32)
    }

    fn mul(self, other: u16) -> (r: u32) {
        self * (other as u32)
    }

    fn div(self, other: u16) -> (r: u32) {
        self / (other as u32)
    }

    fn rem(self, other: u16) -> (r: u32) {
        self % (other as u32)
    }
}

impl Scale<u8> for u32 {
    type Output = u32;

    open spec fn spec_scale_mul(self, other: u8) -> u32 {
        (self * (other as u32)) as u32
    }

    open spec fn mul_in_range(self, other: u8) -> bool {
        self * (other as u32) <= u32::MAX
    }

    open spec fn spec_scale_div(self, other: u8) -> u32 {
        self / (other as u32)
    }

    open spec fn div_defined(self, other: u8) -> bool {
        other != 0
    }

    open spec fn spec_scale_rem(self, other: u8) -> u32 {
        self % (other as u32)
    }

    fn mul(self, other: u8) -> (r: u32) {
        self * (other as u32)
    }

    fn div(self, other: u8) -> (r: u32) {
        self / (other as u32)
    }

    fn rem(self, other: u8) -> (r: u32) {
        self % (other as u32)
    }
}

impl Scale<u16> for u16 {
    type Output = u16;

    open spec fn spec_scale_mul(self, other: u16) -> u16 {
        (self * (other as u16)) as u16
    }

    open spec fn mul_in_range(self, other: u16) -> bool {
        self * (other as u16) <= u16::MAX
    }

    open spec fn spec_scale_div(self, other: u16) -> u16 {
        self / (other as u16)
    }

    open spec fn div_defined(self, other: u16) -> bool {
        other != 0
    }

    open spec fn spec_scale_rem(self, other: u16) -> u16 {
        self % (other as u16)
    }

    fn mul(self, other: u16) -> (r: u16) {
        self * (other as u16)
    }

    fn div(self, other: u16) -> (r: u16) {
        self / (other as u16)
    }

    fn rem(self, other: u16) -> (r: u16) {
        self % (other as u16)
    }
}

impl Scale<u8> for u16 {
    type Output = u16;

    open spec fn spec_scale_mul(self, other: u8) -> u16 {
        (self * (other as u16)) as u16
    }

    open spec fn mul_in_range(self, other: u8) -> bool {
        self * (other as u16) <= u16::MAX
    }

    open spec fn spec_scale_div(self, other: u8) -> u16 {
        self / (other as u16)
    }

    open spec fn div_defined(self, other: u8) -> bool {
        other != 0
    }

    open spec fn spec_scale_rem(self, other: u8) -> u16 {
        self % (other as u16)
    }

    fn mul(self, other: u8) -> (r: u16) {
        self * (other as u16)
    }

    fn div(self, other: u8) -> (r: u16) {
        self / (other as u16)
    }

    fn rem(self, other: u8) -> (r: u16) {
        self % (other as u16)
    }
}

impl Scale<u8> for u8 {
    type Output = u8;

    open spec fn spec_scale_mul(self, other: u8) -> u8 {
        (self * (other as u8)) as u8
    }

    open spec fn mul_in_range(self, other: u8) -> bool {
        self * (other as u8) <= u8::MAX
    }

    open spec fn spec_scale_div(self, other: u8) -> u8 {
        self / (other as u8)
    }

    open spec fn div_defined(self, other: u8) -> bool {
        other != 0
    }

    open spec fn spec_scale_rem(self, other: u8) -> u8 {
        self % (other as u8)
    }

    fn mul(self, other: u8) -> (r: u8) {
        self * (other as u8)
    }

    fn div(self, other: u8) -> (r: u8) {
        self / (other as u8)
    }

    fn rem(self, other: u8) -> (r: u8) {
        self % (other as u8)
    }
}
/// A type that can be used in runtime structures.
pub trait Member: Clone + PartialEq + Eq + Sized {

}

impl<T: Clone + PartialEq + Eq + Sized> Member for T {

}

/// Determine whether a member identifier belongs to the current set.
pub trait IsMember<MemberId> {
    /// What [`IsMember::is_member`] decides.
    spec fn spec_is_member(member_id: &MemberId) -> bool;

    /// Whether the given identifier is a valid member.
    fn is_member(member_id: &MemberId) -> (r: bool)
        ensures
            r == Self::spec_is_member(member_id),
    ;
}

/// A provider of a randomness beacon.
pub trait RandomnessBeacon {
    /// Thirty-two bytes of public random data. The output changes
    /// eventually but two calls may well agree; nothing else is promised,
    /// and nothing here may be used where an adversary choosing the value
    /// early would matter.
    fn random() -> [u8; 32];
}

/// An opaque bundle of keys that can be taken apart into raw byte strings,
/// one per key class.
pub trait OpaqueKeys: Sized {
    /// The key classes this set supports, in order.
    spec fn spec_key_ids() -> Seq<KeyTypeId>;

    /// The raw bytes of the key of class `i`.
    spec fn spec_get_raw(&self, i: KeyTypeId) -> Seq<u8>;

    /// The key classes this set supports.
    fn key_ids() -> (r: Vec<KeyTypeId>)
        ensures
            r@ == Self::spec_key_ids(),
    ;

    /// The raw bytes of the key of class `i`.
    fn get_raw(&self, i: KeyTypeId) -> (r: &[u8])
        ensures
            r@ == self.spec_get_raw(i),
    ;

    /// The decoded key of class `i`, or `None` when its bytes are too few.
    fn get<T: Decode>(&self, i: KeyTypeId) -> (r: Option<T>)
        ensures
            r == (if T::encoded_len() <= self.spec_get_raw(i).len() {
                Some(T::from_bytes(zero_extended(self.spec_get_raw(i), T::encoded_len())))
            } else {
                None::<T>
            }),
    {
        let raw = copy_bytes(self.get_raw(i));
        let mut cursor = ByteInput::new(raw);
        match T::decode(&mut cursor) {
            Ok(v) => Some(v),
            Err(_) => None,
        }
    }

    /// Whether a proof of ownership for these keys is valid. By default
    /// every proof is accepted.
    fn ownership_proof_is_valid(&self, proof_bytes: &[u8]) -> bool {
        true
    }
}

/// An auxiliary wrapper that holds an api instance and binds it to a
/// lifetime.
pub struct ApiRef<'a, T>(T, PhantomData<&'a ()>);

impl<'a, T> ApiRef<'a, T> {
    /// The wrapped api instance, as the value it holds.
    pub closed spec fn spec_inner(&self) -> T {
        self.0
    }

    /// Wrap an api instance.
    pub fn new(api: T) -> (r: Self)
        ensures
            r.spec_inner() == api,
    {
        ApiRef(api, PhantomData)
    }

    /// The wrapped api instance.
    pub fn inner(&self) -> (r: &T)
        ensures
            *r == self.spec_inner(),
    {
        &self.0
    }

    /// Unwrap the api instance.
    pub fn into_inner(self) -> (r: T)
        ensures
            r == self.spec_inner(),
    {
        self.0
    }
}

/// Something that provides a runtime api. The returned instance buffers
/// changes for its caller to commit or discard; nothing reaches persistent
/// storage by itself.
pub trait ProvideRuntimeApi {
    /// The concrete type that provides the api.
    type Api;

    /// A scoped api instance.
    fn runtime_api<'a>(&'a self) -> ApiRef<'a, Self::Api>;
}

/// A marker for something that knows the type of the runtime block.
pub trait GetRuntimeBlockType {
    /// The runtime block type.
    type RuntimeBlock: Block;
}

/// A marker for something that knows the type of the node block.
pub trait GetNodeBlockType {
    /// The node block type.
    type NodeBlock: Block;
}

/// Something that describes a runtime api.
pub trait RuntimeApiInfo {
    /// The eight-byte identifier of the api.
    fn id() -> [u8; 8];

    /// The version of the api.
    fn version() -> u32;
}

/// The hook run once per block while the block is ending.
pub trait OnFinalize<BlockNumber> {
    /// The block numbered `_n` is being finalized.
    fn on_finalize(_n: BlockNumber) {
    }
}

impl<BlockNumber> OnFinalize<BlockNumber> for () {

}

impl<BlockNumber: Copy, A: OnFinalize<BlockNumber>, B: OnFinalize<BlockNumber>> OnFinalize<
    BlockNumber,
> for (A, B) {
    fn on_finalize(n: BlockNumber) {
        A::on_finalize(n);
        B::on_finalize(n);
    }
}

/// The hook run once per block right before the first extrinsic.
pub trait OnInitialize<BlockNumber> {
    /// The block numbered `_n` is being initialized.
    fn on_initialize(_n: BlockNumber) {
    }
}

impl<BlockNumber> OnInitialize<BlockNumber> for () {

}

impl<BlockNumber: Copy, A: OnInitialize<BlockNumber>, B: OnInitialize<BlockNumber>> OnInitialize<
    BlockNumber,
> for (A, B) {
    fn on_initialize(n: BlockNumber) {
        A::on_initialize(n);
        B::on_initialize(n);
    }
}

/// The hook run after every block import for long-running off-chain work;
/// state alterations made here are not persisted.
pub trait OffchainWorker<BlockNumber> {
    /// The block numbered `_n` was imported.
    fn offchain_worker(_n: BlockNumber) {
    }
}

impl<BlockNumber> OffchainWorker<BlockNumber> for () {

}

impl<
    BlockNumber: Copy,
    A: OffchainWorker<BlockNumber>,
    B: OffchainWorker<BlockNumber>,
> OffchainWorker<BlockNumber> for (A, B) {
    fn offchain_worker(n: BlockNumber) {
        A::offchain_worker(n);
        B::offchain_worker(n);
    }
}

/// A way of naming a block: by its digest or by its number.
pub enum BlockId<B: Block> {
    /// The block with this digest.
    Hash(<B as Block>::Hash),
    /// The block with this number.
    Number(NumberFor<B>),
}

/// Something that can turn a block name into the block's digest or number,
/// for a node-side backend.
pub trait BlockIdTo<B: Block> {
    /// The error the backend can raise.
    type Error;

    /// The digest of the named block, when the backend knows it.
    fn to_hash(&self, block_id: &BlockId<B>) -> Result<Option<<B as Block>::Hash>, Self::Error>;

    /// The number of the named block, when the backend knows it.
    fn to_number(&self, block_id: &BlockId<B>) -> Result<Option<NumberFor<B>>, Self::Error>;
}

} // verus!
