//! The transaction validation and dispatch pipeline: pluggable checks
//! ("signed extensions"), their composition into an ordered chain with
//! short-circuit failure, and the checkable/dispatchable interfaces around
//! them.

use vstd::prelude::*;
use crate::codec::{DefaultValue, Encode};
use crate::validity::{
    spec_combine_validity, spec_default_validity, TransactionValidity, TransactionValidityError,
    ValidTransaction, ValidityModel,
};

verus! {

/// Whether an executable validity outcome agrees with its model: same
/// success or failure, same descriptor or error.
pub open spec fn validity_matches(
    r: TransactionValidity,
    m: Result<ValidityModel, TransactionValidityError>,
) -> bool {
    match (r, m) {
        (Ok(v), Ok(model)) => v@ == model,
        (Err(e1), Err(e2)) => e1 == e2,
        _ => false,
    }
}

/// A pluggable check attached to a signed transaction beyond the call and
/// the signature itself. It is plain data, constructed per transaction from
/// wire data and consumed across validate, pre-dispatch and post-dispatch.
pub trait SignedExtension: Sized {
    /// The type which encodes the sender identity.
    type AccountId;

    /// The type which encodes the call to be dispatched.
    type Call;

    /// Additional data that goes into the signed payload.
    type AdditionalSigned: Encode;

    /// Carry-over state threaded from pre-dispatch to post-dispatch.
    type Pre: DefaultValue;

    /// Information attached to the transaction by the dispatcher.
    type DispatchInfo;

    /// What [`SignedExtension::additional_signed`] returns.
    spec fn spec_additional_signed(&self) -> Result<
        Self::AdditionalSigned,
        TransactionValidityError,
    >;

    /// What [`SignedExtension::validate`] decides.
    spec fn spec_validate(
        &self,
        who: &Self::AccountId,
        call: &Self::Call,
        info: &Self::DispatchInfo,
        len: usize,
    ) -> Result<ValidityModel, TransactionValidityError>;

    /// What [`SignedExtension::pre_dispatch`] decides. An implementation
    /// must keep every check of [`SignedExtension::spec_validate`]; see
    /// [`SignedExtension::lemma_pre_dispatch_no_weaker`].
    spec fn spec_pre_dispatch(
        self,
        who: &Self::AccountId,
        call: &Self::Call,
        info: &Self::DispatchInfo,
        len: usize,
    ) -> Result<Self::Pre, TransactionValidityError>;

    /// What [`SignedExtension::validate_unsigned`] decides.
    spec fn spec_validate_unsigned(
        call: &Self::Call,
        info: &Self::DispatchInfo,
        len: usize,
    ) -> Result<ValidityModel, TransactionValidityError>;

    /// Validation at dispatch time is never weaker than validation at
    /// pool-admission time: whenever `validate` rejects, `pre_dispatch`
    /// rejects with the same error.
    proof fn lemma_pre_dispatch_no_weaker(
        self,
        who: &Self::AccountId,
        call: &Self::Call,
        info: &Self::DispatchInfo,
        len: usize,
    )
        ensures
            self.spec_validate(who, call, info, len) matches Err(e) ==> self.spec_pre_dispatch(
                who,
                call,
                info,
                len,
            ) == Err::<Self::Pre, TransactionValidityError>(e),
    ;

    /// Construct the data this check adds to the signed payload, or reject
    /// the transaction before any signature is even verified.
    fn additional_signed(&self) -> (r: Result<Self::AdditionalSigned, TransactionValidityError>)
        ensures
            r == self.spec_additional_signed(),
    ;

    /// Validate a signed transaction for the transaction pool. Pure: safe to
    /// call arbitrarily often against a read-only view of state.
    fn validate(
        &self,
        who: &Self::AccountId,
        call: &Self::Call,
        info: &Self::DispatchInfo,
        len: usize,
    ) -> (r: TransactionValidity)
        ensures
            validity_matches(r, self.spec_validate(who, call, info, len)),
    ;

    /// Consume the check right before dispatch, producing the carry-over
    /// state for [`SignedExtension::post_dispatch`].
    fn pre_dispatch(
        self,
        who: &Self::AccountId,
        call: &Self::Call,
        info: &Self::DispatchInfo,
        len: usize,
    ) -> (r: Result<Self::Pre, TransactionValidityError>)
        ensures
            r == self.spec_pre_dispatch(who, call, info, len),
    ;

    /// Validate an unsigned transaction for the transaction pool.
    fn validate_unsigned(call: &Self::Call, info: &Self::DispatchInfo, len: usize) -> (r:
        TransactionValidity)
        ensures
            validity_matches(r, Self::spec_validate_unsigned(call, info, len)),
    ;

    /// What [`SignedExtension::pre_dispatch_unsigned`] decides.
    spec fn spec_pre_dispatch_unsigned(
        call: &Self::Call,
        info: &Self::DispatchInfo,
        len: usize,
    ) -> Result<Self::Pre, TransactionValidityError>;

    /// The unsigned counterpart of [`SignedExtension::pre_dispatch`].
    fn pre_dispatch_unsigned(call: &Self::Call, info: &Self::DispatchInfo, len: usize) -> (r:
        Result<Self::Pre, TransactionValidityError>)
        ensures
            r == Self::spec_pre_dispatch_unsigned(call, info, len),
    ;

    /// The hook run after dispatch, with the carried state, whatever the
    /// dispatched call itself did.
    fn post_dispatch(pre: Self::Pre, info: &Self::DispatchInfo, len: usize) {
    }
}

/// The additional signed data of a chain of checks: the ordered sequence of
/// each member's data, stopping at the first member that rejects.
pub open spec fn spec_chain_additional_signed<E: SignedExtension>(exts: Seq<E>) -> Result<
    Seq<E::AdditionalSigned>,
    TransactionValidityError,
>
    decreases exts.len(),
{
    if exts.len() == 0 {
        Ok(Seq::empty())
    } else {
        match exts[0].spec_additional_signed() {
            Err(e) => Err(e),
            Ok(a) => match spec_chain_additional_signed(exts.skip(1)) {
                Err(e) => Err(e),
                Ok(rest) => Ok(seq![a] + rest),
            },
        }
    }
}

/// The verdict of a chain of checks continued from the merged verdict `acc`:
/// members run left to right, verdicts merge in order, and the first
/// rejection is returned as it stands.
pub open spec fn spec_chain_validate_from<E: SignedExtension>(
    exts: Seq<E>,
    who: &E::AccountId,
    call: &E::Call,
    info: &E::DispatchInfo,
    len: usize,
    acc: ValidityModel,
) -> Result<ValidityModel, TransactionValidityError>
    decreases exts.len(),
{
    if exts.len() == 0 {
        Ok(acc)
    } else {
        match exts[0].spec_validate(who, call, info, len) {
            Err(e) => Err(e),
            Ok(v) => spec_chain_validate_from(
                exts.skip(1),
                who,
                call,
                info,
                len,
                spec_combine_validity(acc, v),
            ),
        }
    }
}

/// The verdict of a whole chain of checks, started from the empty verdict.
pub open spec fn spec_chain_validate<E: SignedExtension>(
    exts: Seq<E>,
    who: &E::AccountId,
    call: &E::Call,
    info: &E::DispatchInfo,
    len: usize,
) -> Result<ValidityModel, TransactionValidityError> {
    spec_chain_validate_from(exts, who, call, info, len, spec_default_validity())
}

/// The carry-over data of a chain of checks: the ordered sequence of each
/// member's carry, stopping at the first member that rejects.
pub open spec fn spec_chain_pre_dispatch<E: SignedExtension>(
    exts: Seq<E>,
    who: &E::AccountId,
    call: &E::Call,
    info: &E::DispatchInfo,
    len: usize,
) -> Result<Seq<E::Pre>, TransactionValidityError>
    decreases exts.len(),
{
    if exts.len() == 0 {
        Ok(Seq::empty())
    } else {
        match exts[0].spec_pre_dispatch(who, call, info, len) {
            Err(e) => Err(e),
            Ok(p) => match spec_chain_pre_dispatch(exts.skip(1), who, call, info, len) {
                Err(e) => Err(e),
                Ok(rest) => Ok(seq![p] + rest),
            },
        }
    }
}

/// Collect the additional signed data of every member of the chain, in
/// order, stopping at the first member that rejects. Members after that one
/// are not consulted.
pub fn chain_additional_signed<E: SignedExtension>(exts: &Vec<E>) -> (r: Result<
    Vec<E::AdditionalSigned>,
    TransactionValidityError,
>)
    ensures
        match (r, spec_chain_additional_signed(exts@)) {
            (Ok(v), Ok(s)) => v@ == s,
            (Err(e1), Err(e2)) => e1 == e2,
            _ => false,
        },
{
    let mut out: Vec<E::AdditionalSigned> = Vec::new();
    let mut i: usize = 0;
    proof {
        assert(exts@.skip(0) =~= exts@);
        if let Ok(rest0) = spec_chain_additional_signed(exts@) {
            assert(out@ + rest0 =~= rest0);
        }
    }
    while i < exts.len()
        invariant
            i <= exts@.len(),
            match spec_chain_additional_signed(exts@.skip(i as int)) {
                Ok(rest) => spec_chain_additional_signed(exts@) == Ok::<
                    Seq<E::AdditionalSigned>,
                    TransactionValidityError,
                >(out@ + rest),
                Err(e) => spec_chain_additional_signed(exts@) == Err::<
                    Seq<E::AdditionalSigned>,
                    TransactionValidityError,
                >(e),
            },
        decreases exts@.len() - i,
    {
        proof {
            assert(exts@.skip(i as int)[0] == exts@[i as int]);
            assert(exts@.skip(i as int).skip(1) =~= exts@.skip(i as int + 1));
        }
        match exts[i].additional_signed() {
            Ok(a) => {
                let ghost out0 = out@;
                let ghost ga = a;
                out.push(a);
                proof {
                    assert(out@ =~= out0 + seq![ga]);
                    if let Ok(rest2) = spec_chain_additional_signed(exts@.skip(i as int + 1)) {
                        assert((out0 + seq![ga]) + rest2 =~= out0 + (seq![ga] + rest2));
                    }
                }
                i += 1;
            },
            Err(e) => {
                return Err(e);
            },
        }
    }
    proof {
        assert(exts@.skip(i as int) =~= Seq::<E>::empty());
        assert(out@ + Seq::<E::AdditionalSigned>::empty() =~= out@);
    }
    Ok(out)
}

/// Validate a signed transaction against every member of the chain, left to
/// right, merging the verdicts in order; the first rejection is returned as
/// it stands and the members after it are not consulted.
pub fn chain_validate<E: SignedExtension>(
    exts: &Vec<E>,
    who: &E::AccountId,
    call: &E::Call,
    info: &E::DispatchInfo,
    len: usize,
) -> (r: TransactionValidity)
    ensures
        validity_matches(r, spec_chain_validate(exts@, who, call, info, len)),
{
    let mut valid = ValidTransaction::default();
    let mut i: usize = 0;
    proof {
        assert(exts@.skip(0) =~= exts@);
    }
    while i < exts.len()
        invariant
            i <= exts@.len(),
            spec_chain_validate(exts@, who, call, info, len) == spec_chain_validate_from(
                exts@.skip(i as int),
                who,
                call,
                info,
                len,
                valid@,
            ),
        decreases exts@.len() - i,
    {
        proof {
            assert(exts@.skip(i as int)[0] == exts@[i as int]);
            assert(exts@.skip(i as int).skip(1) =~= exts@.skip(i as int + 1));
        }
        match exts[i].validate(who, call, info, len) {
            Ok(v) => {
                valid = valid.combine_with(v);
                i += 1;
            },
            Err(e) => {
                return Err(e);
            },
        }
    }
    proof {
        assert(exts@.skip(i as int) =~= Seq::<E>::empty());
    }
    Ok(valid)
}

/// Run every member's pre-dispatch, left to right, collecting the carries in
/// order; the first rejection is returned as it stands and the members after
/// it are not consulted.
pub fn chain_pre_dispatch<E: SignedExtension>(
    exts: Vec<E>,
    who: &E::AccountId,
    call: &E::Call,
    info: &E::DispatchInfo,
    len: usize,
) -> (r: Result<Vec<E::Pre>, TransactionValidityError>)
    ensures
        match (r, spec_chain_pre_dispatch(exts@, who, call, info, len)) {
            (Ok(v), Ok(s)) => v@ == s,
            (Err(e1), Err(e2)) => e1 == e2,
            _ => false,
        },
{
    let ghost exts0 = exts@;
    let mut rest = exts;
    let mut out: Vec<E::Pre> = Vec::new();
    let ghost mut i: int = 0;
    proof {
        assert(exts0.skip(0) =~= exts0);
        if let Ok(tail0) = spec_chain_pre_dispatch(exts0, who, call, info, len) {
            assert(out@ + tail0 =~= tail0);
        }
    }
    while rest.len() > 0
        invariant
            exts0 == exts@,
            0 <= i <= exts0.len(),
            rest@ == exts0.skip(i),
            match spec_chain_pre_dispatch(exts0.skip(i), who, call, info, len) {
                Ok(tail) => spec_chain_pre_dispatch(exts0, who, call, info, len) == Ok::<
                    Seq<E::Pre>,
                    TransactionValidityError,
                >(out@ + tail),
                Err(e) => spec_chain_pre_dispatch(exts0, who, call, info, len) == Err::<
                    Seq<E::Pre>,
                    TransactionValidityError,
                >(e),
            },
        decreases rest@.len(),
    {
        proof {
            assert(exts0.skip(i)[0] == rest@[0]);
            assert(exts0.skip(i).skip(1) =~= exts0.skip(i + 1));
        }
        let head = rest.remove(0);
        proof {
            assert(rest@ =~= exts0.skip(i + 1));
        }
        match head.pre_dispatch(who, call, info, len) {
            Ok(p) => {
                let ghost out0 = out@;
                let ghost gp = p;
                out.push(p);
                proof {
                    assert(out@ =~= out0 + seq![gp]);
                    if let Ok(tail2) = spec_chain_pre_dispatch(
                        exts0.skip(i + 1),
                        who,
                        call,
                        info,
                        len,
                    ) {
                        assert((out0 + seq![gp]) + tail2 =~= out0 + (seq![gp] + tail2));
                    }
                    i = i + 1;
                }
            },
            Err(e) => {
                return Err(e);
            },
        }
    }
    proof {
        assert(exts0.skip(i) =~= Seq::<E>::empty());
        assert(out@ + Seq::<E::Pre>::empty() =~= out@);
    }
    Ok(out)
}

/// Run every member's post-dispatch hook, in order, with that member's
/// carried state. Every hook runs, whatever the dispatched call did.
pub fn chain_post_dispatch<E: SignedExtension>(
    pres: Vec<E::Pre>,
    info: &E::DispatchInfo,
    len: usize,
) {
    let mut rest = pres;
    while rest.len() > 0
        decreases rest@.len(),
    {
        let head = rest.remove(0);
        E::post_dispatch(head, info, len);
    }
}

/// The verdict of running the chain's unsigned validation once for each
/// member, continued from the merged verdict `acc`.
pub open spec fn spec_chain_validate_unsigned_from<E: SignedExtension>(
    exts: Seq<E>,
    call: &E::Call,
    info: &E::DispatchInfo,
    len: usize,
    acc: ValidityModel,
) -> Result<ValidityModel, TransactionValidityError>
    decreases exts.len(),
{
    if exts.len() == 0 {
        Ok(acc)
    } else {
        match E::spec_validate_unsigned(call, info, len) {
            Err(e) => Err(e),
            Ok(v) => spec_chain_validate_unsigned_from(
                exts.skip(1),
                call,
                info,
                len,
                spec_combine_validity(acc, v),
            ),
        }
    }
}

/// Validate an unsigned transaction against every member of the chain.
pub fn chain_validate_unsigned<E: SignedExtension>(
    exts: &Vec<E>,
    call: &E::Call,
    info: &E::DispatchInfo,
    len: usize,
) -> (r: TransactionValidity)
    ensures
        validity_matches(
            r,
            spec_chain_validate_unsigned_from(exts@, call, info, len, spec_default_validity()),
        ),
{
    let mut valid = ValidTransaction::default();
    let mut i: usize = 0;
    proof {
        assert(exts@.skip(0) =~= exts@);
    }
    while i < exts.len()
        invariant
            i <= exts@.len(),
            spec_chain_validate_unsigned_from(exts@, call, info, len, spec_default_validity())
                == spec_chain_validate_unsigned_from(
                exts@.skip(i as int),
                call,
                info,
                len,
                valid@,
            ),
        decreases exts@.len() - i,
    {
        proof {
            assert(exts@.skip(i as int).skip(1) =~= exts@.skip(i as int + 1));
        }
        match E::validate_unsigned(call, info, len) {
            Ok(v) => {
                valid = valid.combine_with(v);
                i += 1;
            },
            Err(e) => {
                return Err(e);
            },
        }
    }
    proof {
        assert(exts@.skip(i as int) =~= Seq::<E>::empty());
    }
    Ok(valid)
}

/// An empty chain of checks admits any transaction trivially: no additional
/// signed data, the empty verdict, no carries.
pub proof fn lemma_empty_chain<E: SignedExtension>(
    who: &E::AccountId,
    call: &E::Call,
    info: &E::DispatchInfo,
    len: usize,
)
    ensures
        spec_chain_additional_signed(Seq::<E>::empty()) == Ok::<
            Seq<E::AdditionalSigned>,
            TransactionValidityError,
        >(Seq::empty()),
        spec_chain_validate(Seq::<E>::empty(), who, call, info, len) == Ok::<
            ValidityModel,
            TransactionValidityError,
        >(spec_default_validity()),
        spec_chain_pre_dispatch(Seq::<E>::empty(), who, call, info, len) == Ok::<
            Seq<E::Pre>,
            TransactionValidityError,
        >(Seq::empty()),
        spec_chain_validate_unsigned_from(
            Seq::<E>::empty(),
            call,
            info,
            len,
            spec_default_validity(),
        ) == Ok::<ValidityModel, TransactionValidityError>(spec_default_validity()),
{
}

proof fn lemma_chain_validate_from_err<E: SignedExtension>(
    exts: Seq<E>,
    who: &E::AccountId,
    call: &E::Call,
    info: &E::DispatchInfo,
    len: usize,
    acc: ValidityModel,
    k: int,
    e: TransactionValidityError,
)
    requires
        0 <= k < exts.len(),
        exts[k].spec_validate(who, call, info, len) == Err::<ValidityModel,
            TransactionValidityError,
        >(e),
        forall|j: int| 0 <= j < k ==> #[trigger] exts[j].spec_validate(who, call, info, len)
            is Ok,
    ensures
        spec_chain_validate_from(exts, who, call, info, len, acc) == Err::<
            ValidityModel,
            TransactionValidityError,
        >(e),
    decreases k,
{
    if k == 0 {
    } else {
        let v = exts[0].spec_validate(who, call, info, len)->Ok_0;
        assert(exts.skip(1)[k - 1] == exts[k]);
        assert(forall|j: int|
            0 <= j < k - 1 ==> exts.skip(1)[j] == #[trigger] exts[j + 1]);
        lemma_chain_validate_from_err(
            exts.skip(1),
            who,
            call,
            info,
            len,
            spec_combine_validity(acc, v),
            k - 1,
            e,
        );
    }
}

/// Validation of a chain short-circuits: when every member before position
/// `k` admits the transaction and member `k` rejects it, the chain's verdict
/// is exactly member `k`'s error, and the members after `k` have no say: any
/// chain agreeing with this one up to and through `k` yields the same
/// verdict.
pub proof fn lemma_chain_validate_short_circuit<E: SignedExtension>(
    exts: Seq<E>,
    who: &E::AccountId,
    call: &E::Call,
    info: &E::DispatchInfo,
    len: usize,
    k: int,
    e: TransactionValidityError,
)
    requires
        0 <= k < exts.len(),
        exts[k].spec_validate(who, call, info, len) == Err::<ValidityModel,
            TransactionValidityError,
        >(e),
        forall|j: int| 0 <= j < k ==> #[trigger] exts[j].spec_validate(who, call, info, len)
            is Ok,
    ensures
        spec_chain_validate(exts, who, call, info, len) == Err::<
            ValidityModel,
            TransactionValidityError,
        >(e),
        spec_chain_validate(exts.take(k + 1), who, call, info, len) == Err::<
            ValidityModel,
            TransactionValidityError,
        >(e),
{
    lemma_chain_validate_from_err(exts, who, call, info, len, spec_default_validity(), k, e);
    assert(forall|j: int| 0 <= j < k + 1 ==> exts.take(k + 1)[j] == #[trigger] exts[j]);
    lemma_chain_validate_from_err(
        exts.take(k + 1),
        who,
        call,
        info,
        len,
        spec_default_validity(),
        k,
        e,
    );
}

proof fn lemma_chain_pre_dispatch_err<E: SignedExtension>(
    exts: Seq<E>,
    who: &E::AccountId,
    call: &E::Call,
    info: &E::DispatchInfo,
    len: usize,
    k: int,
    e: TransactionValidityError,
)
    requires
        0 <= k < exts.len(),
        exts[k].spec_pre_dispatch(who, call, info, len) == Err::<E::Pre,
            TransactionValidityError,
        >(e),
        forall|j: int| 0 <= j < k ==> #[trigger] exts[j].spec_pre_dispatch(who, call, info, len)
            is Ok,
    ensures
        spec_chain_pre_dispatch(exts, who, call, info, len) == Err::<
            Seq<E::Pre>,
            TransactionValidityError,
        >(e),
    decreases k,
{
    if k == 0 {
    } else {
        assert(exts.skip(1)[k - 1] == exts[k]);
        assert(forall|j: int| 0 <= j < k - 1 ==> exts.skip(1)[j] == #[trigger] exts[j + 1]);
        lemma_chain_pre_dispatch_err(exts.skip(1), who, call, info, len, k - 1, e);
    }
}

/// Pre-dispatch of a chain short-circuits just as validation does: when
/// every member before position `k` produces a carry and member `k`
/// rejects, the chain's outcome is exactly member `k`'s error, and the
/// members after `k` have no say.
pub proof fn lemma_chain_pre_dispatch_short_circuit<E: SignedExtension>(
    exts: Seq<E>,
    who: &E::AccountId,
    call: &E::Call,
    info: &E::DispatchInfo,
    len: usize,
    k: int,
    e: TransactionValidityError,
)
    requires
        0 <= k < exts.len(),
        exts[k].spec_pre_dispatch(who, call, info, len) == Err::<E::Pre,
            TransactionValidityError,
        >(e),
        forall|j: int| 0 <= j < k ==> #[trigger] exts[j].spec_pre_dispatch(who, call, info, len)
            is Ok,
    ensures
        spec_chain_pre_dispatch(exts, who, call, info, len) == Err::<
            Seq<E::Pre>,
            TransactionValidityError,
        >(e),
        spec_chain_pre_dispatch(exts.take(k + 1), who, call, info, len) == Err::<
            Seq<E::Pre>,
            TransactionValidityError,
        >(e),
{
    lemma_chain_pre_dispatch_err(exts, who, call, info, len, k, e);
    assert(forall|j: int| 0 <= j < k + 1 ==> exts.take(k + 1)[j] == #[trigger] exts[j]);
    lemma_chain_pre_dispatch_err(exts.take(k + 1), who, call, info, len, k, e);
}

proof fn lemma_chain_additional_signed_err<E: SignedExtension>(
    exts: Seq<E>,
    k: int,
    e: TransactionValidityError,
)
    requires
        0 <= k < exts.len(),
        exts[k].spec_additional_signed() == Err::<E::AdditionalSigned,
            TransactionValidityError,
        >(e),
        forall|j: int| 0 <= j < k ==> #[trigger] exts[j].spec_additional_signed() is Ok,
    ensures
        spec_chain_additional_signed(exts) == Err::<
            Seq<E::AdditionalSigned>,
            TransactionValidityError,
        >(e),
    decreases k,
{
    if k == 0 {
    } else {
        assert(exts.skip(1)[k - 1] == exts[k]);
        assert(forall|j: int| 0 <= j < k - 1 ==> exts.skip(1)[j] == #[trigger] exts[j + 1]);
        lemma_chain_additional_signed_err(exts.skip(1), k - 1, e);
    }
}

/// Collecting a chain's additional signed data short-circuits: when every
/// member before position `k` yields its data and member `k` rejects, the
/// outcome is exactly member `k`'s error, and the members after `k` have no
/// say.
pub proof fn lemma_chain_additional_signed_short_circuit<E: SignedExtension>(
    exts: Seq<E>,
    k: int,
    e: TransactionValidityError,
)
    requires
        0 <= k < exts.len(),
        exts[k].spec_additional_signed() == Err::<E::AdditionalSigned,
            TransactionValidityError,
        >(e),
        forall|j: int| 0 <= j < k ==> #[trigger] exts[j].spec_additional_signed() is Ok,
    ensures
        spec_chain_additional_signed(exts) == Err::<
            Seq<E::AdditionalSigned>,
            TransactionValidityError,
        >(e),
        spec_chain_additional_signed(exts.take(k + 1)) == Err::<
            Seq<E::AdditionalSigned>,
            TransactionValidityError,
        >(e),
{
    lemma_chain_additional_signed_err(exts, k, e);
    assert(forall|j: int| 0 <= j < k + 1 ==> exts.take(k + 1)[j] == #[trigger] exts[j]);
    lemma_chain_additional_signed_err(exts.take(k + 1), k, e);
}

/// The trivial extension: it checks nothing and admits everything. Only for
/// bare-bone exercising of the pipeline.
impl SignedExtension for () {
    type AccountId = u64;

    type Call = ();

    type AdditionalSigned = ();

    type Pre = ();

    type DispatchInfo = ();

    open spec fn spec_additional_signed(&self) -> Result<(), TransactionValidityError> {
        Ok(())
    }

    open spec fn spec_validate(
        &self,
        who: &u64,
        call: &(),
        info: &(),
        len: usize,
    ) -> Result<ValidityModel, TransactionValidityError> {
        Ok(spec_default_validity())
    }

    open spec fn spec_pre_dispatch(self, who: &u64, call: &(), info: &(), len: usize) -> Result<
        (),
        TransactionValidityError,
    > {
        Ok(())
    }

    open spec fn spec_validate_unsigned(call: &(), info: &(), len: usize) -> Result<
        ValidityModel,
        TransactionValidityError,
    > {
        Ok(spec_default_validity())
    }

    open spec fn spec_pre_dispatch_unsigned(call: &(), info: &(), len: usize) -> Result<
        (),
        TransactionValidityError,
    > {
        Ok(())
    }

    proof fn lemma_pre_dispatch_no_weaker(self, who: &u64, call: &(), info: &(), len: usize) {
    }

    fn additional_signed(&self) -> (r: Result<(), TransactionValidityError>) {
        Ok(())
    }

    fn validate(&self, who: &u64, call: &(), info: &(), len: usize) -> (r: TransactionValidity) {
        Ok(ValidTransaction::default())
    }

    fn pre_dispatch(self, who: &u64, call: &(), info: &(), len: usize) -> (r: Result<
        (),
        TransactionValidityError,
    >) {
        Ok(())
    }

    fn validate_unsigned(call: &(), info: &(), len: usize) -> (r: TransactionValidity) {
        Ok(ValidTransaction::default())
    }

    fn pre_dispatch_unsigned(call: &(), info: &(), len: usize) -> (r: Result<
        (),
        TransactionValidityError,
    >) {
        Ok(())
    }
}

/// A check whose verdict is fixed when it is constructed: it either admits
/// the transaction with a verdict carrying its priority, or rejects with a
/// preset error. A chain of these exercises the composition rules.
#[derive(Clone, Copy, PartialEq, Eq, Structural, Debug)]
pub struct FixedCheck {
    /// The rejection this check raises, or `None` to admit.
    pub error: Option<TransactionValidityError>,
    /// The priority granted when the check admits.
    pub priority: u64,
}

impl FixedCheck {
    /// The verdict this check settles on.
    pub open spec fn spec_verdict(&self) -> Result<ValidityModel, TransactionValidityError> {
        match self.error {
            Some(e) => Err(e),
            None => Ok(
                ValidityModel {
                    priority: self.priority,
                    ..spec_default_validity()
                },
            ),
        }
    }
}

impl SignedExtension for FixedCheck {
    type AccountId = u64;

    type Call = ();

    type AdditionalSigned = ();

    type Pre = ();

    type DispatchInfo = ();

    open spec fn spec_additional_signed(&self) -> Result<(), TransactionValidityError> {
        match self.error {
            Some(e) => Err(e),
            None => Ok(()),
        }
    }

    open spec fn spec_validate(
        &self,
        who: &u64,
        call: &(),
        info: &(),
        len: usize,
    ) -> Result<ValidityModel, TransactionValidityError> {
        self.spec_verdict()
    }

    open spec fn spec_pre_dispatch(self, who: &u64, call: &(), info: &(), len: usize) -> Result<
        (),
        TransactionValidityError,
    > {
        match self.error {
            Some(e) => Err(e),
            None => Ok(()),
        }
    }

    open spec fn spec_validate_unsigned(call: &(), info: &(), len: usize) -> Result<
        ValidityModel,
        TransactionValidityError,
    > {
        Ok(spec_default_validity())
    }

    open spec fn spec_pre_dispatch_unsigned(call: &(), info: &(), len: usize) -> Result<
        (),
        TransactionValidityError,
    > {
        Ok(())
    }

    proof fn lemma_pre_dispatch_no_weaker(self, who: &u64, call: &(), info: &(), len: usize) {
    }

    fn additional_signed(&self) -> (r: Result<(), TransactionValidityError>) {
        match self.error {
            Some(e) => Err(e),
            None => Ok(()),
        }
    }

    fn validate(&self, who: &u64, call: &(), info: &(), len: usize) -> (r: TransactionValidity) {
        match self.error {
            Some(e) => Err(e),
            None => {
                let mut v = ValidTransaction::default();
                v.priority = self.priority;
                proof {
                    assert(v@ =~= (ValidityModel {
                        priority: self.priority,
                        ..spec_default_validity()
                    }));
                }
                Ok(v)
            },
        }
    }

    fn pre_dispatch(self, who: &u64, call: &(), info: &(), len: usize) -> (r: Result<
        (),
        TransactionValidityError,
    >) {
        match self.error {
            Some(e) => Err(e),
            None => Ok(()),
        }
    }

    fn validate_unsigned(call: &(), info: &(), len: usize) -> (r: TransactionValidity) {
        Ok(ValidTransaction::default())
    }

    fn pre_dispatch_unsigned(call: &(), info: &(), len: usize) -> (r: Result<
        (),
        TransactionValidityError,
    >) {
        Ok(())
    }
}

/// How a dispatched call reports its own outcome.
pub type DispatchResult = Result<(), &'static str>;

/// The outcome of applying an extrinsic: rejected outright, or dispatched
/// with the call's own outcome inside.
pub type ApplyExtrinsicResult = Result<DispatchResult, TransactionValidityError>;

/// A lazy call, module function and argument values, that can be executed
/// via its `dispatch` method.
pub trait Dispatchable: Sized {
    /// Where the call originated: the sender of a signed extrinsic, or
    /// nothing for an inherent.
    type Origin;

    /// The configuration the call runs under.
    type Trait;

    /// Execute the call under `origin`.
    fn dispatch(self, origin: Self::Origin) -> DispatchResult;
}

/// A piece of information that can be checked without any context, usually
/// by verifying a signature; failing with a validity error, never a fault.
pub trait BlindCheckable: Sized {
    /// The form the information takes once checked.
    type Checked;

    /// What [`BlindCheckable::check`] decides.
    spec fn spec_check(self) -> Result<Self::Checked, TransactionValidityError>;

    /// Check this information.
    fn check(self) -> (r: Result<Self::Checked, TransactionValidityError>)
        ensures
            r == self.spec_check(),
    ;
}

/// A piece of information checkable against a context `Context`.
pub trait Checkable<Context>: Sized {
    /// The form the information takes once checked.
    type Checked;

    /// What [`Checkable::check`] decides.
    spec fn spec_check(self, c: &Context) -> Result<Self::Checked, TransactionValidityError>;

    /// Check this information against `c`.
    fn check(self, c: &Context) -> (r: Result<Self::Checked, TransactionValidityError>)
        ensures
            r == self.spec_check(c),
    ;
}

/// Anything checkable without context is checkable under every context.
impl<T: BlindCheckable, Context> Checkable<Context> for T {
    type Checked = <T as BlindCheckable>::Checked;

    open spec fn spec_check(self, c: &Context) -> Result<
        Self::Checked,
        TransactionValidityError,
    > {
        <T as BlindCheckable>::spec_check(self)
    }

    fn check(self, c: &Context) -> (r: Result<Self::Checked, TransactionValidityError>) {
        <T as BlindCheckable>::check(self)
    }
}

/// Something that can validate unsigned extrinsics for the transaction
/// pool.
pub trait ValidateUnsigned {
    /// The call to validate.
    type Call;

    /// What [`ValidateUnsigned::validate_unsigned`] decides.
    spec fn spec_validate_unsigned(call: &Self::Call) -> Result<
        ValidityModel,
        TransactionValidityError,
    >;

    /// What [`ValidateUnsigned::pre_dispatch`] decides. It should keep
    /// every check of [`ValidateUnsigned::spec_validate_unsigned`] so that
    /// a transaction that became invalid is not applied.
    spec fn spec_pre_dispatch(call: &Self::Call) -> Result<(), TransactionValidityError>;

    /// Validate the call right before dispatch.
    fn pre_dispatch(call: &Self::Call) -> (r: Result<(), TransactionValidityError>)
        ensures
            r == Self::spec_pre_dispatch(call),
    ;

    /// Return the validity of the call, without side effects.
    fn validate_unsigned(call: &Self::Call) -> (r: TransactionValidity)
        ensures
            validity_matches(r, Self::spec_validate_unsigned(call)),
    ;
}

impl ValidateUnsigned for () {
    type Call = ();

    open spec fn spec_validate_unsigned(call: &()) -> Result<
        ValidityModel,
        TransactionValidityError,
    > {
        Ok(spec_default_validity())
    }

    open spec fn spec_pre_dispatch(call: &()) -> Result<(), TransactionValidityError> {
        Ok(())
    }

    fn pre_dispatch(call: &()) -> (r: Result<(), TransactionValidityError>) {
        Ok(())
    }

    fn validate_unsigned(call: &()) -> (r: TransactionValidity) {
        Ok(ValidTransaction::default())
    }
}

/// An executable piece of information used to enact an extrinsic by
/// dispatching it to a named function call, attributable to a sender.
pub trait Applyable: Sized {
    /// The sender this information is attributable to.
    type AccountId;

    /// The call carried.
    type Call;

    /// Information attached to the transaction by the dispatcher.
    type DispatchInfo;

    /// The sender, if the extrinsic is attributable.
    fn sender(&self) -> Option<&Self::AccountId>;

    /// Check whether this is a valid transaction.
    fn validate<V: ValidateUnsigned<Call = Self::Call>>(
        &self,
        info: &Self::DispatchInfo,
        len: usize,
    ) -> TransactionValidity;

    /// Run the pre-dispatch logic and dispatch the call.
    fn apply<V: ValidateUnsigned<Call = Self::Call>>(
        self,
        info: &Self::DispatchInfo,
        len: usize,
    ) -> ApplyExtrinsicResult;
}

} // verus!
