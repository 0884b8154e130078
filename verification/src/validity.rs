//! Transaction validity descriptors and the classified errors a validity
//! check can raise.

use vstd::prelude::*;

verus! {

/// Priority of a transaction in the pool: higher values are served first.
pub type TransactionPriority = u64;

/// Number of blocks for which a validity verdict stays meaningful.
pub type TransactionLongevity = u64;

/// A dependency tag: an opaque byte string that one transaction provides and
/// another may require.
pub type TransactionTag = Vec<u8>;

/// Rejections that mark a transaction as definitely invalid.
#[derive(Clone, Copy, PartialEq, Eq, Structural, Debug)]
pub enum InvalidTransaction {
    /// The call is not recognised or is malformed.
    Call,
    /// The transaction cannot pay for its admission.
    Payment,
    /// The transaction is not yet valid, it belongs to a future state.
    Future,
    /// The transaction is outdated: already applied or expired.
    Stale,
    /// A proof carried by the transaction, such as a signature, is bad.
    BadProof,
    /// The resources the transaction would consume are exhausted.
    ExhaustedResources,
    /// A rejection specific to the embedding runtime.
    Custom(u8),
}

/// Conditions under which a transaction's validity cannot currently be
/// determined; the transaction may be retried later.
#[derive(Clone, Copy, PartialEq, Eq, Structural, Debug)]
pub enum UnknownTransaction {
    /// A source-to-target identifier lookup failed.
    CannotLookup,
    /// No validator was registered for an unsigned transaction.
    NoUnsignedValidator,
    /// An unknown condition specific to the embedding runtime.
    Custom(u8),
}

/// Why a transaction was not admitted: either a definite, permanent
/// rejection or a condition that may clear later.
#[derive(Clone, Copy, PartialEq, Eq, Structural, Debug)]
pub enum TransactionValidityError {
    /// The transaction is invalid and will never become valid.
    Invalid(InvalidTransaction),
    /// Validity cannot be determined right now.
    Unknown(UnknownTransaction),
}

/// The outcome of validating a transaction.
pub type TransactionValidity = Result<ValidTransaction, TransactionValidityError>;

/// Pool-admission metadata produced by a successful validity check.
#[derive(Clone, PartialEq, Eq, Debug)]
pub struct ValidTransaction {
    /// Priority of the transaction: higher values are served first.
    pub priority: TransactionPriority,
    /// Tags that must be provided by other transactions before this one can
    /// be applied.
    pub requires_tags: Vec<TransactionTag>,
    /// Tags this transaction provides once applied.
    pub provides_tags: Vec<TransactionTag>,
    /// For how many blocks the verdict stays meaningful.
    pub longevity: TransactionLongevity,
    /// Whether the transaction should be gossiped to peers.
    pub propagate: bool,
}

/// The mathematical model of a [`ValidTransaction`]: tag lists become
/// sequences of byte sequences.
#[verifier::ext_equal]
pub struct ValidityModel {
    /// Model of [`ValidTransaction::priority`].
    pub priority: u64,
    /// Model of [`ValidTransaction::requires_tags`].
    pub requires_tags: Seq<Seq<u8>>,
    /// Model of [`ValidTransaction::provides_tags`].
    pub provides_tags: Seq<Seq<u8>>,
    /// Model of [`ValidTransaction::longevity`].
    pub longevity: u64,
    /// Model of [`ValidTransaction::propagate`].
    pub propagate: bool,
}

impl View for ValidTransaction {
    type V = ValidityModel;

    open spec fn view(&self) -> ValidityModel {
        ValidityModel {
            priority: self.priority,
            requires_tags: self.requires_tags.deep_view(),
            provides_tags: self.provides_tags.deep_view(),
            longevity: self.longevity,
            propagate: self.propagate,
        }
    }
}

/// Addition on priorities that stops at the largest representable value.
pub open spec fn spec_saturating_add(a: u64, b: u64) -> u64 {
    if a + b > u64::MAX {
        u64::MAX
    } else {
        (a + b) as u64
    }
}

/// The smaller of two longevities.
pub open spec fn spec_min_u64(a: u64, b: u64) -> u64 {
    if a < b {
        a
    } else {
        b
    }
}

/// The descriptor a check with nothing to declare produces: no priority, no
/// dependency tags, unlimited longevity, gossiped to peers.
pub open spec fn spec_default_validity() -> ValidityModel {
    ValidityModel {
        priority: 0,
        requires_tags: Seq::empty(),
        provides_tags: Seq::empty(),
        longevity: u64::MAX,
        propagate: true,
    }
}

/// How two validity verdicts merge when independent checks are chained:
/// priorities add (saturating), dependency tags concatenate in order,
/// longevity is the stricter of the two, and the transaction propagates only
/// if both sides allow it.
pub open spec fn spec_combine_validity(a: ValidityModel, b: ValidityModel) -> ValidityModel {
    ValidityModel {
        priority: spec_saturating_add(a.priority, b.priority),
        requires_tags: a.requires_tags + b.requires_tags,
        provides_tags: a.provides_tags + b.provides_tags,
        longevity: spec_min_u64(a.longevity, b.longevity),
        propagate: a.propagate && b.propagate,
    }
}

impl Default for ValidTransaction {
    /// See [`spec_default_validity`].
    fn default() -> (r: Self)
        ensures
            r@ == spec_default_validity(),
    {
        let r = ValidTransaction {
            priority: 0,
            requires_tags: Vec::new(),
            provides_tags: Vec::new(),
            longevity: u64::MAX,
            propagate: true,
        };
        proof {
            assert(r@ =~= spec_default_validity());
        }
        r
    }
}

impl ValidTransaction {
    /// Merge this verdict with the verdict of the check that ran directly
    /// after it; see [`spec_combine_validity`].
    pub fn combine_with(self, other: ValidTransaction) -> (r: Self)
        ensures
            r@ == spec_combine_validity(self@, other@),
    {
        let ghost a = self@;
        let ghost b = other@;
        let mut other = other;
        let priority = if self.priority > u64::MAX - other.priority {
            u64::MAX
        } else {
            self.priority + other.priority
        };
        let mut requires_tags = self.requires_tags;
        requires_tags.append(&mut other.requires_tags);
        let mut provides_tags = self.provides_tags;
        provides_tags.append(&mut other.provides_tags);
        let longevity = if self.longevity < other.longevity {
            self.longevity
        } else {
            other.longevity
        };
        let propagate = self.propagate && other.propagate;
        let r = ValidTransaction { priority, requires_tags, provides_tags, longevity, propagate };
        proof {
            assert(r.requires_tags.deep_view() =~= a.requires_tags + b.requires_tags);
            assert(r.provides_tags.deep_view() =~= a.provides_tags + b.provides_tags);
            assert(r@ =~= spec_combine_validity(a, b));
        }
        r
    }
}

/// Merging validity verdicts is associative: a chain of checks yields the
/// same combined descriptor however the pairwise merges are grouped.
pub proof fn lemma_combine_validity_associative(
    a: ValidityModel,
    b: ValidityModel,
    c: ValidityModel,
)
    ensures
        spec_combine_validity(spec_combine_validity(a, b), c) == spec_combine_validity(
            a,
            spec_combine_validity(b, c),
        ),
{
    assert(spec_combine_validity(spec_combine_validity(a, b), c) =~= spec_combine_validity(
        a,
        spec_combine_validity(b, c),
    ));
}

/// An error that indicates that a source-to-target identifier lookup failed.
#[derive(Clone, Copy, PartialEq, Eq, Structural, Debug)]
pub struct LookupError;

impl LookupError {
    /// A human-readable description of the error.
    pub fn message(&self) -> (r: &'static str)
        ensures
            r@ =~= "Can not lookup"@,
    {
        proof {
            reveal_strlit("Can not lookup");
        }
        "Can not lookup"
    }

    /// A failed lookup surfaces to the pool as: validity cannot currently be
    /// determined because the responsible party is unknown.
    pub fn into_transaction_error(self) -> (r: TransactionValidityError)
        ensures
            r == TransactionValidityError::Unknown(UnknownTransaction::CannotLookup),
    {
        TransactionValidityError::Unknown(UnknownTransaction::CannotLookup)
    }
}

} // verus!
