//! Primitive traits and types for a runtime: zero-padded byte inputs,
//! deterministic sub-account derivation, signature verification, hashing and
//! block structure abstractions, and a composable transaction-validation
//! pipeline.

pub mod account;
pub mod block;
pub mod codec;
pub mod crypto;
pub mod extension;
pub mod hash;
pub mod input;
pub mod misc;
pub mod validity;
pub mod verify;

use vstd::prelude::*;

verus! {

/// An error type that indicates that the origin is invalid.
#[derive(Clone, Copy, PartialEq, Eq, Structural, Debug)]
pub struct BadOrigin;

impl BadOrigin {
    /// A human-readable description of the error.
    pub fn message(&self) -> (r: &'static str)
        ensures
            r@ =~= "Bad origin"@,
    {
        proof {
            reveal_strlit("Bad origin");
        }
        "Bad origin"
    }
}

} // verus!
