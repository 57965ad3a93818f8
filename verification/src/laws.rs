//! What holds of an instance over every history of calls.
//!
//! A history is a sequence of calls, each with the answers that the host's
//! services gave for it. The laws below are stated over the same spec
//! functions that the contracts of `deposit` and `claim` use.

use vstd::prelude::*;
use crate::address::Address;
use crate::balance::{ClaimableBalanceView, MAX_BENEFICIARIES};
use crate::contract::ContractView;
use crate::error::Error;
use crate::time_bound::{TimeBound, TimeBoundKind};

verus! {

/// One call on an instance, with what the authorization service and the
/// asset-transfer service answered for it.
pub enum Call {
    Deposit {
        token: Address,
        amount_per_beneficiary: int,
        beneficiaries: Seq<Address>,
        time_bound: TimeBound,
        authorized: bool,
        transferred: bool,
    },
    Claim { beneficiary: Address, now: u64, authorized: bool, transferred: bool },
}

impl ContractView {
    /// The instance after `call`: changed as the call says if it succeeds,
    /// and unchanged if it fails.
    pub open spec fn after(self, call: Call) -> ContractView {
        match call {
            Call::Deposit {
                token,
                amount_per_beneficiary,
                beneficiaries,
                time_bound,
                authorized,
                transferred,
            } => if self.deposit_outcome(
                amount_per_beneficiary,
                beneficiaries,
                authorized,
                transferred,
            ) is Ok {
                self.after_deposit(token, amount_per_beneficiary, beneficiaries, time_bound)
            } else {
                self
            },
            Call::Claim { beneficiary, now, authorized, transferred } => if self.claim_outcome(
                beneficiary,
                now,
                authorized,
                transferred,
            ) is Ok {
                self.after_claim(beneficiary)
            } else {
                self
            },
        }
    }

    /// The instance after the calls of `calls`, made in order.
    pub open spec fn after_all(self, calls: Seq<Call>) -> ContractView
        decreases calls.len(),
    {
        if calls.len() == 0 {
            self
        } else {
            self.after_all(calls.drop_last()).after(calls.last())
        }
    }

    /// Whether the record exists and has the terms of `record`: its asset,
    /// share, beneficiaries and time bound.
    pub open spec fn keeps_terms_of(self, record: ClaimableBalanceView) -> bool {
        &&& self.balance is Some
        &&& self.balance->0.token == record.token
        &&& self.balance->0.amount_per_beneficiary == record.amount_per_beneficiary
        &&& self.balance->0.beneficiaries == record.beneficiaries
        &&& self.balance->0.time_bound == record.time_bound
    }
}

/// A call on a well-formed instance leaves a well-formed instance.
pub proof fn call_keeps_validity(state: ContractView, call: Call)
    requires
        state.wf(),
    ensures
        state.after(call).wf(),
{
    match call {
        Call::Deposit { .. } => {},
        Call::Claim { beneficiary, now, authorized, transferred } => {
            if state.claim_outcome(beneficiary, now, authorized, transferred) is Ok {
                let record = state.balance->0;
                if !record.on_last_share() {
                    let next = record.claimed_by(beneficiary);
                    assert(next.total_amount == next.amount_per_beneficiary * next.outstanding())
                        by (nonlinear_arith)
                        requires
                            record.total_amount == record.amount_per_beneficiary
                                * record.outstanding(),
                            next.total_amount == record.total_amount
                                - record.amount_per_beneficiary,
                            next.amount_per_beneficiary == record.amount_per_beneficiary,
                            next.outstanding() == record.outstanding() - 1,
                    ;
                    assert forall|i: int| 0 <= i < next.claimed_beneficiaries.len() implies
                        next.beneficiaries.contains(#[trigger] next.claimed_beneficiaries[i]) by {
                        if i < record.claimed_beneficiaries.len() {
                            assert(next.claimed_beneficiaries[i] == record.claimed_beneficiaries[i]);
                        }
                    }
                }
            }
        },
    }
}

/// Every history of calls on a well-formed instance leaves a well-formed
/// instance: while the record exists, the claimants are beneficiaries, none
/// is listed twice, and the amount held is the share times the number of
/// beneficiaries who have not claimed.
pub proof fn calls_keep_validity(state: ContractView, calls: Seq<Call>)
    requires
        state.wf(),
    ensures
        state.after_all(calls).wf(),
    decreases calls.len(),
{
    if calls.len() > 0 {
        calls_keep_validity(state, calls.drop_last());
        call_keeps_validity(state.after_all(calls.drop_last()), calls.last());
    }
}

/// The flag that a deposit was made is never cleared, and the instance's
/// account never changes.
pub proof fn flag_is_never_cleared(state: ContractView, calls: Seq<Call>)
    ensures
        state.init ==> state.after_all(calls).init,
        state.after_all(calls).address == state.address,
    decreases calls.len(),
{
    if calls.len() > 0 {
        flag_is_never_cleared(state, calls.drop_last());
    }
}

/// After a successful deposit no deposit succeeds again, whatever calls were
/// made in between and whether or not the record still exists. A later
/// deposit whose amount is not negative and whose beneficiaries are within
/// the limit fails with `AlreadyInitialized`; one that breaks those two
/// rules fails on them first.
pub proof fn second_deposit_is_refused(
    state: ContractView,
    token: Address,
    amount_per_beneficiary: int,
    beneficiaries: Seq<Address>,
    time_bound: TimeBound,
    calls: Seq<Call>,
    later_amount: int,
    later_beneficiaries: Seq<Address>,
    authorized: bool,
    transferred: bool,
)
    requires
        state.deposit_outcome(amount_per_beneficiary, beneficiaries, true, true) is Ok,
    ensures
        ({
            let later = state.after_deposit(
                token,
                amount_per_beneficiary,
                beneficiaries,
                time_bound,
            ).after_all(calls);
            &&& later.deposit_outcome(
                later_amount,
                later_beneficiaries,
                authorized,
                transferred,
            ) is Err
            &&& 0 <= later_amount && later_beneficiaries.len() <= MAX_BENEFICIARIES
                ==> later.deposit_outcome(
                later_amount,
                later_beneficiaries,
                authorized,
                transferred,
            ) == Err::<(), Error>(Error::AlreadyInitialized)
        }),
{
    flag_is_never_cleared(
        state.after_deposit(token, amount_per_beneficiary, beneficiaries, time_bound),
        calls,
    );
}

/// While the record exists its terms are those of the deposit: the asset,
/// the share, the beneficiaries and the time bound never change.
pub proof fn terms_stay_fixed(state: ContractView, calls: Seq<Call>)
    requires
        state.wf(),
        state.balance is Some,
    ensures
        state.after_all(calls).balance is Some ==> state.after_all(calls).keeps_terms_of(
            state.balance->0,
        ),
    decreases calls.len(),
{
    if calls.len() > 0 {
        let earlier = state.after_all(calls.drop_last());
        terms_stay_fixed(state, calls.drop_last());
        flag_is_never_cleared(state, calls.drop_last());
        assert(earlier.balance is None ==> earlier.after(calls.last()).balance is None);
    }
}

/// Once a deposit was made and the record is gone, it stays gone: every
/// later claim finds no record.
pub proof fn removed_record_stays_removed(state: ContractView, calls: Seq<Call>)
    requires
        state.init,
        state.balance is None,
    ensures
        state.after_all(calls).init,
        state.after_all(calls).balance is None,
        forall|beneficiary: Address, now: u64, transferred: bool|
            #[trigger] state.after_all(calls).claim_outcome(beneficiary, now, true, transferred)
                == Err::<(), Error>(Error::NotInitialized),
    decreases calls.len(),
{
    if calls.len() > 0 {
        removed_record_stays_removed(state, calls.drop_last());
    }
}

/// Somebody who is not among the beneficiaries of the deposit never claims
/// successfully, at any time and after any calls. While the record exists,
/// an authorized claim of theirs fails with `NotABeneficiary`.
pub proof fn outsider_never_claims(
    state: ContractView,
    outsider: Address,
    calls: Seq<Call>,
    now: u64,
    authorized: bool,
    transferred: bool,
)
    requires
        state.wf(),
        state.balance is Some,
        !state.balance->0.beneficiaries.contains(outsider),
    ensures
        state.after_all(calls).claim_outcome(outsider, now, authorized, transferred) is Err,
        authorized && state.after_all(calls).balance is Some ==> state.after_all(
            calls,
        ).claim_outcome(outsider, now, authorized, transferred) == Err::<(), Error>(
            Error::NotABeneficiary,
        ),
{
    terms_stay_fixed(state, calls);
}

/// Both kinds of time bound admit the bound's own timestamp; a `Before`
/// bound admits exactly the times up to it, an `After` bound exactly the
/// times from it on.
pub proof fn time_bound_includes_its_timestamp(bound: TimeBound, now: u64)
    ensures
        bound.holds(bound.timestamp),
        bound.kind == TimeBoundKind::Before ==> (bound.holds(now) <==> now <= bound.timestamp),
        bound.kind == TimeBoundKind::After ==> (bound.holds(now) <==> now >= bound.timestamp),
{
}

/// The time bound gates every claim: an authorized claim by a beneficiary
/// fails with `TimeBoundNotSatisfied` at a time that the bound does not
/// admit, whether or not they have claimed before. At a time that it admits,
/// and so at the bound's own timestamp, the claim of a beneficiary who has
/// not claimed succeeds once the funds have moved.
pub proof fn time_bound_is_enforced(
    state: ContractView,
    beneficiary: Address,
    now: u64,
    transferred: bool,
)
    requires
        state.balance is Some,
        state.balance->0.beneficiaries.contains(beneficiary),
    ensures
        !state.balance->0.time_bound.holds(now) ==> state.claim_outcome(
            beneficiary,
            now,
            true,
            transferred,
        ) == Err::<(), Error>(Error::TimeBoundNotSatisfied),
        state.balance->0.time_bound.holds(now) && !state.balance->0.claimed_beneficiaries.contains(
            beneficiary,
        ) ==> state.claim_outcome(beneficiary, now, true, true) is Ok,
        !state.balance->0.claimed_beneficiaries.contains(beneficiary) ==> state.claim_outcome(
            beneficiary,
            state.balance->0.time_bound.timestamp,
            true,
            true,
        ) is Ok,
{
}

/// After a successful claim the claimant is listed as long as the record
/// exists.
proof fn claimant_stays_listed(state: ContractView, claimant: Address, calls: Seq<Call>)
    requires
        state.wf(),
        state.init,
        state.balance is Some ==> state.balance->0.claimed_beneficiaries.contains(claimant),
    ensures
        state.after_all(calls).wf(),
        state.after_all(calls).init,
        state.after_all(calls).balance is Some ==> state.after_all(
            calls,
        ).balance->0.claimed_beneficiaries.contains(claimant),
    decreases calls.len(),
{
    if calls.len() > 0 {
        let earlier = state.after_all(calls.drop_last());
        claimant_stays_listed(state, claimant, calls.drop_last());
        call_keeps_validity(earlier, calls.last());
        if earlier.balance is Some {
            let record = earlier.balance->0;
            let at = choose|i: int|
                0 <= i < record.claimed_beneficiaries.len() && record.claimed_beneficiaries[i]
                    == claimant;
            match calls.last() {
                Call::Deposit { .. } => {},
                Call::Claim { beneficiary, .. } => {
                    assert(record.claimed_by(beneficiary).claimed_beneficiaries[at] == claimant);
                },
            }
        }
    }
}

/// A beneficiary claims at most once. After their successful claim, and
/// after any calls that follow it, a claim of theirs is refused before any
/// transfer is asked for; while the record exists and the time bound holds,
/// an authorized one fails with `AlreadyClaimed`.
pub proof fn claims_at_most_once(
    state: ContractView,
    beneficiary: Address,
    now: u64,
    calls: Seq<Call>,
    later_now: u64,
    authorized: bool,
    transferred: bool,
)
    requires
        state.wf(),
        state.claim_outcome(beneficiary, now, true, true) is Ok,
    ensures
        ({
            let later = state.after_claim(beneficiary).after_all(calls);
            &&& later.claim_refusal(beneficiary, later_now, authorized) is Some
            &&& later.claim_outcome(beneficiary, later_now, authorized, transferred) is Err
            &&& authorized && later.balance is Some && later.balance->0.time_bound.holds(later_now)
                ==> later.claim_outcome(beneficiary, later_now, authorized, transferred)
                == Err::<(), Error>(Error::AlreadyClaimed)
        }),
{
    let claimed = state.after_claim(beneficiary);
    call_keeps_validity(
        state,
        Call::Claim { beneficiary, now, authorized: true, transferred: true },
    );
    if claimed.balance is Some {
        let listed = claimed.balance->0.claimed_beneficiaries;
        assert(listed[listed.len() - 1] == beneficiary);
    }
    claimant_stays_listed(claimed, beneficiary, calls);
    let later = claimed.after_all(calls);
    if later.balance is Some {
        let record = later.balance->0;
        let at = choose|i: int|
            0 <= i < record.claimed_beneficiaries.len() && record.claimed_beneficiaries[i]
                == beneficiary;
        assert(record.beneficiaries.contains(record.claimed_beneficiaries[at]));
    }
}

/// Among beneficiaries that are pairwise distinct, a successful claim
/// removes the record exactly when the claimant was the last beneficiary
/// who had not claimed.
pub proof fn last_claim_removes_record(state: ContractView, beneficiary: Address, now: u64)
    requires
        state.wf(),
        state.claim_outcome(beneficiary, now, true, true) is Ok,
        state.balance->0.beneficiaries.no_duplicates(),
    ensures
        state.after_claim(beneficiary).balance is None <==> (forall|i: int|
            0 <= i < state.balance->0.beneficiaries.len() ==> {
                ||| #[trigger] state.balance->0.beneficiaries[i] == beneficiary
                ||| state.balance->0.claimed_beneficiaries.contains(
                    state.balance->0.beneficiaries[i],
                )
            }),
{
    let record = state.balance->0;
    let named = record.beneficiaries;
    let paid = record.claimed_beneficiaries.push(beneficiary);
    call_keeps_validity(
        state,
        Call::Claim { beneficiary, now, authorized: true, transferred: true },
    );
    assert(paid.no_duplicates());
    assert forall|a: Address| paid.to_set().contains(a) implies named.to_set().contains(a) by {
        let i = choose|i: int| 0 <= i < paid.len() && paid[i] == a;
        if i < record.claimed_beneficiaries.len() {
            assert(named.contains(record.claimed_beneficiaries[i]));
        }
    }
    named.unique_seq_to_set();
    paid.unique_seq_to_set();
    vstd::seq_lib::seq_to_set_is_finite(named);
    vstd::seq_lib::seq_to_set_is_finite(paid);
    let all_paid = forall|i: int|
        0 <= i < named.len() ==> {
            ||| #[trigger] named[i] == beneficiary
            ||| record.claimed_beneficiaries.contains(named[i])
        };
    if record.on_last_share() {
        vstd::set_lib::lemma_subset_equality(paid.to_set(), named.to_set());
        assert forall|i: int| 0 <= i < named.len() implies {
            ||| #[trigger] named[i] == beneficiary
            ||| record.claimed_beneficiaries.contains(named[i])
        } by {
            assert(named.to_set().contains(named[i]));
            assert(paid.to_set().contains(named[i]));
            let k = choose|k: int| 0 <= k < paid.len() && paid[k] == named[i];
            if k < record.claimed_beneficiaries.len() {
                assert(record.claimed_beneficiaries[k] == named[i]);
            }
        }
    }
    if all_paid {
        assert forall|a: Address| named.to_set().contains(a) implies paid.to_set().contains(a) by {
            let i = choose|i: int| 0 <= i < named.len() && named[i] == a;
            if named[i] == beneficiary {
                assert(paid[paid.len() - 1] == a);
            } else {
                let k = choose|k: int|
                    0 <= k < record.claimed_beneficiaries.len() && record.claimed_beneficiaries[k]
                        == a;
                assert(paid[k] == a);
            }
        }
        assert(paid.to_set() =~= named.to_set());
    }
}

} // verus!
