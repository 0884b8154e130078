//! The validation and dispatch pipeline: chain composition, short-circuit
//! failure, the empty-chain identity, and verdict merging.

use runtime_primitives::extension::{
    chain_additional_signed, chain_post_dispatch, chain_pre_dispatch, chain_validate,
    chain_validate_unsigned, FixedCheck, SignedExtension,
};
use runtime_primitives::validity::{
    InvalidTransaction, TransactionValidityError, UnknownTransaction, ValidTransaction,
};

fn pass(priority: u64) -> FixedCheck {
    FixedCheck { error: None, priority }
}

fn fail(error: TransactionValidityError) -> FixedCheck {
    FixedCheck { error: Some(error), priority: 0 }
}

#[test]
fn short_circuit_returns_the_first_error_verbatim() {
    let e2 = TransactionValidityError::Invalid(InvalidTransaction::Stale);
    let e3 = TransactionValidityError::Unknown(UnknownTransaction::CannotLookup);
    // The chain is [valid, invalid, another invalid]: the outcome is
    // exactly the second member's error, and nothing of the third's.
    let checks = vec![pass(5), fail(e2), fail(e3)];
    assert_eq!(chain_validate(&checks, &1u64, &(), &(), 0), Err(e2));
    assert_eq!(chain_additional_signed(&checks), Err(e2));
    assert_eq!(chain_pre_dispatch(checks, &1u64, &(), &(), 0), Err(e2));
}

#[test]
fn empty_chain_trivially_succeeds_every_stage() {
    let none: Vec<FixedCheck> = Vec::new();
    let verdict = chain_validate(&none, &9u64, &(), &(), 7).unwrap();
    assert_eq!(verdict, ValidTransaction::default());
    assert_eq!(chain_additional_signed(&none), Ok(Vec::new()));
    assert_eq!(chain_validate_unsigned(&none, &(), &(), 7), Ok(ValidTransaction::default()));
    let pres = chain_pre_dispatch(none, &9u64, &(), &(), 7).unwrap();
    assert_eq!(pres, Vec::<()>::new());
    chain_post_dispatch::<FixedCheck>(pres, &(), 7);
}

#[test]
fn verdicts_merge_in_order() {
    let checks = vec![pass(5), pass(7)];
    let verdict = chain_validate(&checks, &1u64, &(), &(), 0).unwrap();
    assert_eq!(verdict.priority, 12);
    assert_eq!(verdict.longevity, u64::MAX);
    assert!(verdict.propagate);
    assert!(verdict.requires_tags.is_empty());
    assert!(verdict.provides_tags.is_empty());
}

#[test]
fn combine_with_merges_fieldwise() {
    let a = ValidTransaction {
        priority: 10,
        requires_tags: vec![vec![1]],
        provides_tags: vec![vec![2]],
        longevity: 100,
        propagate: true,
    };
    let b = ValidTransaction {
        priority: 3,
        requires_tags: vec![vec![3]],
        provides_tags: vec![vec![4], vec![5]],
        longevity: 20,
        propagate: false,
    };
    let c = a.combine_with(b);
    assert_eq!(c.priority, 13);
    assert_eq!(c.requires_tags, vec![vec![1], vec![3]]);
    assert_eq!(c.provides_tags, vec![vec![2], vec![4], vec![5]]);
    assert_eq!(c.longevity, 20);
    assert!(!c.propagate);
}

#[test]
fn priorities_saturate_instead_of_wrapping() {
    let verdict = chain_validate(&vec![pass(u64::MAX), pass(2)], &1u64, &(), &(), 0).unwrap();
    assert_eq!(verdict.priority, u64::MAX);
}

#[test]
fn pre_dispatch_collects_one_carry_per_member() {
    let checks = vec![pass(1), pass(2), pass(3)];
    let pres = chain_pre_dispatch(checks, &1u64, &(), &(), 0).unwrap();
    assert_eq!(pres.len(), 3);
    chain_post_dispatch::<FixedCheck>(pres, &(), 0);
}

#[test]
fn unit_extension_admits_everything() {
    let ext = ();
    assert_eq!(ext.additional_signed(), Ok(()));
    assert_eq!(ext.validate(&1u64, &(), &(), 0), Ok(ValidTransaction::default()));
    assert_eq!(ext.pre_dispatch(&1u64, &(), &(), 0), Ok(()));
    assert_eq!(<() as SignedExtension>::validate_unsigned(&(), &(), 0), Ok(
        ValidTransaction::default(),
    ));
    assert_eq!(<() as SignedExtension>::pre_dispatch_unsigned(&(), &(), 0), Ok(()));
}

#[test]
fn failing_check_rejects_unsigned_work_too() {
    let e = TransactionValidityError::Invalid(InvalidTransaction::Payment);
    let checks = vec![fail(e)];
    // A fixed check constrains only signed work; unsigned validation runs
    // the type-level rule, which admits.
    assert!(chain_validate_unsigned(&checks, &(), &(), 0).is_ok());
    assert_eq!(chain_validate(&checks, &1u64, &(), &(), 0), Err(e));
}
