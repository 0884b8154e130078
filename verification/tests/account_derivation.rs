//! Sub-account derivation: forward minting, reverse recovery, canonical
//! rejection and tag discrimination.

use runtime_primitives::account::{AccountIdConversion, U16Value, U32Value};

#[test]
fn into_account_should_work() {
    let r: u64 = U32Value(0xdeadbeef).into_account();
    assert_eq!(r, 0x_deadbeef_cafef00d);
}

#[test]
fn try_from_account_should_work() {
    let r = U32Value::try_from_account(&0x_deadbeef_cafef00d_u64);
    assert_eq!(r.unwrap(), U32Value(0xdeadbeef));
}

#[test]
fn into_account_with_fill_should_work() {
    let r: u64 = U16Value(0xc0da).into_account();
    assert_eq!(r, 0x_0000_c0da_f00dcafe);
}

#[test]
fn try_from_account_with_fill_should_work() {
    let r = U16Value::try_from_account(&0x0000_c0da_f00dcafe_u64);
    assert_eq!(r.unwrap(), U16Value(0xc0da));
}

#[test]
fn bad_try_from_account_should_fail() {
    let r = U16Value::try_from_account(&0x0000_c0de_baadcafe_u64);
    assert!(r.is_none());
    let r = U16Value::try_from_account(&0x0100_c0da_f00dcafe_u64);
    assert!(r.is_none());
}

#[test]
fn sub_account_round_trip_with_sub_value() {
    let id: u64 = U16Value(0xc0da).into_sub_account(&0x11u8);
    // tag f00dcafe, then c0da, then 11, zero-filled: 0x0011_c0da_f00dcafe.
    assert_eq!(id, 0x0011_c0da_f00dcafe);
    let back: Option<(U16Value, u8)> = U16Value::try_from_sub_account(&id);
    assert_eq!(back, Some((U16Value(0xc0da), 0x11)));
}

#[test]
fn corrupting_any_trailing_zero_rejects() {
    let id: u64 = U16Value(0xc0da).into_account();
    assert_eq!(id, 0x0000_c0da_f00dcafe);
    // The two top bytes of the identifier are trailing zeros; a nonzero
    // value in either one must be rejected, though tag and prefix stand.
    for byte in 6..8 {
        let corrupted = id | (0x5e_u64 << (8 * byte));
        assert!(U16Value::try_from_account(&corrupted).is_none());
    }
}

#[test]
fn distinct_tags_never_both_accept() {
    let id: u64 = U32Value(0xdeadbeef).into_account();
    assert!(U32Value::try_from_account(&id).is_some());
    assert!(U16Value::try_from_account(&id).is_none());
    let other: u64 = U16Value(0xc0da).into_account();
    assert!(U16Value::try_from_account(&other).is_some());
    assert!(U32Value::try_from_account(&other).is_none());
}

#[test]
fn into_sub_account_with_unit_equals_into_account() {
    let a: u64 = U32Value(7).into_account();
    let b: u64 = U32Value(7).into_sub_account(&());
    assert_eq!(a, b);
}

#[test]
fn zero_padded_sub_values_collide_by_design() {
    // Sub-values that differ only in their own zero padding mint the same
    // identifier; this is a documented property of the derivation, not a
    // defect.
    let a: u64 = U16Value(0xc0da).into_sub_account(&0u32);
    let b: u64 = U16Value(0xc0da).into_sub_account(&0u8);
    let c: u64 = U16Value(0xc0da).into_account();
    assert_eq!(a, b);
    assert_eq!(b, c);
}

#[test]
fn identifier_shorter_than_tag_is_rejected() {
    // A u16 identifier encodes to two bytes: no tag can fit, so reverse
    // derivation refuses it.
    let r: Option<(U16Value, ())> = U16Value::try_from_sub_account(&0xffff_u16);
    assert!(r.is_none());
}
