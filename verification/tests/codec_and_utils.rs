//! The fixed-width little-endian codec, its agreement with the SCALE codec
//! for integers, and the small utility traits.

use runtime_primitives::codec::{Decode, DefaultValue, Encode};
use runtime_primitives::input::{ByteInput, TrailingZeroInput};
use runtime_primitives::misc::{
    CheckedConversion, Convert, ConvertInto, Identity, IdentityLookup, Lookup, Scale,
    StaticLookup,
};
use runtime_primitives::validity::{
    LookupError, TransactionValidityError, UnknownTransaction,
};
use runtime_primitives::BadOrigin;

#[test]
fn integers_encode_little_endian() {
    assert_eq!(0xc0da_u16.encode(), vec![0xda, 0xc0]);
    assert_eq!(0xdeadbeef_u32.encode(), vec![0xef, 0xbe, 0xad, 0xde]);
    assert_eq!(
        0x0102030405060708_u64.encode(),
        vec![0x08, 0x07, 0x06, 0x05, 0x04, 0x03, 0x02, 0x01],
    );
    assert_eq!(0x7f_u8.encode(), vec![0x7f]);
    assert_eq!(().encode(), Vec::<u8>::new());
}

#[test]
fn integer_encodings_agree_with_scale() {
    assert_eq!(0xc0da_u16.encode(), parity_scale_codec::Encode::encode(&0xc0da_u16));
    assert_eq!(0xdeadbeef_u32.encode(), parity_scale_codec::Encode::encode(&0xdeadbeef_u32));
    assert_eq!(
        0xdeadbeef_cafef00d_u64.encode(),
        parity_scale_codec::Encode::encode(&0xdeadbeef_cafef00d_u64),
    );
    assert_eq!(9_u8.encode(), parity_scale_codec::Encode::encode(&9_u8));
    // The derivation tuple (tag, source, sub-value) is a plain
    // concatenation, as it is under SCALE.
    let ours: Vec<u8> = {
        let mut v = vec![0x0d, 0xf0, 0xfe, 0xca];
        v.extend(0xdeadbeef_u32.encode());
        v
    };
    let theirs =
        parity_scale_codec::Encode::encode(&([0x0d_u8, 0xf0, 0xfe, 0xca], 0xdeadbeef_u32, ()));
    assert_eq!(ours, theirs);
}

#[test]
fn byte_strings_carry_a_length_prefix() {
    let v: Vec<u8> = vec![7];
    assert_eq!(v.encode(), vec![1, 0, 0, 0, 0, 0, 0, 0, 7]);
    let empty: Vec<u8> = Vec::new();
    assert_eq!(empty.encode(), vec![0u8; 8]);
}

#[test]
fn decoding_reads_exactly_the_width() {
    let mut cursor = ByteInput::new(vec![0xef, 0xbe, 0xad, 0xde, 0xda, 0xc0]);
    assert_eq!(u32::decode(&mut cursor), Ok(0xdeadbeef));
    assert_eq!(u16::decode(&mut cursor), Ok(0xc0da));
    assert!(u16::decode(&mut cursor).is_err());
}

#[test]
fn decoding_from_a_padded_source_zero_fills() {
    let mut padded = TrailingZeroInput::new(vec![0x0d, 0xf0]);
    assert_eq!(u64::decode(&mut padded), Ok(0x0000_0000_0000_f00d));
    let mut short = ByteInput::new(vec![0x0d, 0xf0]);
    assert!(u64::decode(&mut short).is_err());
}

#[test]
fn default_values_are_zero_like() {
    assert_eq!(u64::default_value(), 0);
    assert_eq!(u32::default_value(), 0);
    assert_eq!(<() as DefaultValue>::default_value(), ());
}

#[test]
fn scale_multiplies_divides_and_takes_remainders() {
    assert_eq!(Scale::<u32>::mul(10_u64, 3_u32), 30);
    assert_eq!(Scale::<u32>::div(10_u64, 3_u32), 3);
    assert_eq!(Scale::<u32>::rem(10_u64, 3_u32), 1);
    assert_eq!(Scale::<u8>::mul(200_u128, 5_u8), 1000);
    assert_eq!(Scale::<u16>::div(0xffff_u16, 0x100_u16), 0xff);
}

#[test]
fn conversions_behave_as_stated() {
    assert_eq!(<Identity as Convert<u32, u32>>::convert(5), 5);
    assert_eq!(<ConvertInto as Convert<u32, u64>>::convert(7), 7);
    assert_eq!(<() as Convert<u32, u64>>::convert(1234), 0);
    assert_eq!(u32::checked_from(1_u64), Some(1));
    assert_eq!(u32::checked_from(u64::MAX), None);
    assert_eq!(300_u32.checked_into::<u8>(), None);
    assert_eq!(7_u32.checked_into::<u8>(), Some(7));
}

#[test]
fn identity_lookup_returns_its_input() {
    assert_eq!(<IdentityLookup<u64> as StaticLookup>::lookup(8), Ok(8));
    assert_eq!(<IdentityLookup<u64> as StaticLookup>::unlookup(8), 8);
    let l = IdentityLookup::<u64>::new();
    assert_eq!(Lookup::lookup(&l, 9), Ok(9));
}

#[test]
fn error_messages_and_conversions() {
    assert_eq!(BadOrigin.message(), "Bad origin");
    assert_eq!(LookupError.message(), "Can not lookup");
    assert_eq!(
        LookupError.into_transaction_error(),
        TransactionValidityError::Unknown(UnknownTransaction::CannotLookup),
    );
}
