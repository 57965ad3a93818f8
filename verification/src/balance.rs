//! The escrow record: the terms of a deposit and the progress of its claims.

use vstd::prelude::*;
use crate::address::{all_among, all_distinct, Address};
use crate::time_bound::TimeBound;

verus! {

/// The largest number of beneficiaries that one escrow admits.
pub const MAX_BENEFICIARIES: usize = 10;

/// A balance held for a list of beneficiaries, each entitled to the same
/// share, together with the list of those who have received theirs.
#[derive(Clone, Debug, PartialEq, Eq)]
pub struct ClaimableBalance {
    /// The asset that is held.
    pub token: Address,
    /// The share of each beneficiary.
    pub amount_per_beneficiary: i128,
    /// What is still held: the shares that have not been claimed.
    pub total_amount: i128,
    /// Who may claim, in the order given at the deposit.
    pub beneficiaries: Vec<Address>,
    /// Who has claimed, in the order of the claims.
    pub claimed_beneficiaries: Vec<Address>,
    /// When claims are accepted.
    pub time_bound: TimeBound,
}

/// The mathematical content of a `ClaimableBalance`.
pub struct ClaimableBalanceView {
    pub token: Address,
    pub amount_per_beneficiary: int,
    pub total_amount: int,
    pub beneficiaries: Seq<Address>,
    pub claimed_beneficiaries: Seq<Address>,
    pub time_bound: TimeBound,
}

impl View for ClaimableBalance {
    type V = ClaimableBalanceView;

    open spec fn view(&self) -> ClaimableBalanceView {
        ClaimableBalanceView {
            token: self.token,
            amount_per_beneficiary: self.amount_per_beneficiary as int,
            total_amount: self.total_amount as int,
            beneficiaries: self.beneficiaries@,
            claimed_beneficiaries: self.claimed_beneficiaries@,
            time_bound: self.time_bound,
        }
    }
}

impl ClaimableBalanceView {
    /// The number of shares that have not been claimed.
    pub open spec fn outstanding(self) -> int {
        self.beneficiaries.len() - self.claimed_beneficiaries.len()
    }

    /// What holds of every record while it exists: the share is not
    /// negative, the beneficiaries are within the limit, the claimants are
    /// beneficiaries and none is listed twice, a share is outstanding unless
    /// there was never a beneficiary, and the amount held is the sum of the
    /// outstanding shares.
    pub open spec fn wf(self) -> bool {
        &&& 0 <= self.amount_per_beneficiary
        &&& self.beneficiaries.len() <= MAX_BENEFICIARIES
        &&& self.claimed_beneficiaries.no_duplicates()
        &&& forall|i: int|
            0 <= i < self.claimed_beneficiaries.len() ==> self.beneficiaries.contains(
                #[trigger] self.claimed_beneficiaries[i],
            )
        &&& (self.claimed_beneficiaries.len() < self.beneficiaries.len()
            || self.beneficiaries.len() == 0)
        &&& self.total_amount == self.amount_per_beneficiary * self.outstanding()
    }

    /// The record that a deposit creates: every share is held, nobody has
    /// claimed.
    pub open spec fn opened(
        token: Address,
        amount_per_beneficiary: int,
        beneficiaries: Seq<Address>,
        time_bound: TimeBound,
    ) -> ClaimableBalanceView {
        ClaimableBalanceView {
            token,
            amount_per_beneficiary,
            total_amount: amount_per_beneficiary * beneficiaries.len(),
            beneficiaries,
            claimed_beneficiaries: Seq::empty(),
            time_bound,
        }
    }

    /// Whether a claim on this record takes the last outstanding share.
    pub open spec fn on_last_share(self) -> bool {
        self.claimed_beneficiaries.len() + 1 == self.beneficiaries.len()
    }

    /// The record after `beneficiary` has received their share: they are
    /// appended to the claimants and one share less is held. The terms stay
    /// as they were.
    pub open spec fn claimed_by(self, beneficiary: Address) -> ClaimableBalanceView {
        ClaimableBalanceView {
            total_amount: self.total_amount - self.amount_per_beneficiary,
            claimed_beneficiaries: self.claimed_beneficiaries.push(beneficiary),
            ..self
        }
    }
}

/// Whether `total` is `count` shares of `share` each.
fn is_sum_of_shares(total: i128, share: i128, count: usize) -> (exact: bool)
    requires
        0 <= share,
    ensures
        exact == (total == share * count),
{
    let mut rest: i128 = total;
    let mut taken: usize = 0;
    while taken < count
        invariant
            0 <= share,
            taken <= count,
            rest == total - share * taken,
        decreases count - taken,
    {
        if rest < share {
            assert(total != share * count) by (nonlinear_arith)
                requires
                    total - share * taken < share,
                    0 <= share,
                    taken < count,
            ;
            return false;
        }
        assert(share * (taken + 1) == share * taken + share) by (nonlinear_arith);
        rest = rest - share;
        taken += 1;
    }
    rest == 0
}

impl ClaimableBalance {
    /// Checks the record against everything that `wf` asks of it.
    pub fn is_valid(&self) -> (valid: bool)
        ensures
            valid == self@.wf(),
    {
        let named: usize = self.beneficiaries.len();
        let paid: usize = self.claimed_beneficiaries.len();
        if self.amount_per_beneficiary < 0 || named > MAX_BENEFICIARIES {
            return false;
        }
        if !all_distinct(&self.claimed_beneficiaries) {
            return false;
        }
        if !all_among(&self.claimed_beneficiaries, &self.beneficiaries) {
            return false;
        }
        if paid >= named && named != 0 {
            return false;
        }
        if named == 0 {
            assert(paid == 0) by {
                if paid > 0 {
                    assert(self.beneficiaries@.contains(self.claimed_beneficiaries@[0]));
                }
            }
        }
        is_sum_of_shares(self.total_amount, self.amount_per_beneficiary, named - paid)
    }
}

} // verus!
