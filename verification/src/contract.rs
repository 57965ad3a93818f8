//! One escrow instance and the two calls that act on it.
//!
//! An instance owns two storage slots: a flag that a deposit was made, which
//! is never cleared, and the escrow record, which exists from the deposit
//! until the last share is claimed. A call is decided in two steps. First
//! the instance says which transfer the call needs, or why the call is
//! refused. The host then asks the asset-transfer service for that transfer
//! and reports back whether the funds moved; only then is the state changed.

use vstd::prelude::*;
use crate::address::{contains, Address};
use crate::balance::{ClaimableBalance, ClaimableBalanceView, MAX_BENEFICIARIES};
use crate::error::Error;
use crate::time_bound::{check_time_bound, TimeBound};

verus! {

/// The slots of an instance's storage.
#[derive(Clone, Copy, Debug, PartialEq, Eq, Structural)]
pub enum DataKey {
    /// The flag that a deposit was made.
    Init,
    /// The escrow record.
    Balance,
}

/// A movement of `amount` units of `token` from one account to another,
/// asked of the asset-transfer service.
#[derive(Clone, Copy, Debug, PartialEq, Eq)]
pub struct Transfer {
    pub token: Address,
    pub from: Address,
    pub to: Address,
    pub amount: i128,
}

/// An escrow instance: its own account, which holds the escrowed funds, and
/// its two storage slots.
#[derive(Clone, Debug, PartialEq, Eq)]
pub struct MultiPartyClaimableBalanceContract {
    address: Address,
    init: bool,
    balance: Option<ClaimableBalance>,
}

/// The mathematical content of an instance.
pub struct ContractView {
    /// The instance's own account.
    pub address: Address,
    /// Whether a deposit was made.
    pub init: bool,
    /// The escrow record, while it exists.
    pub balance: Option<ClaimableBalanceView>,
}

/// The content of the record slot.
pub open spec fn slot_view(slot: Option<ClaimableBalance>) -> Option<ClaimableBalanceView> {
    match slot {
        Some(record) => Some(record@),
        None => None,
    }
}

impl ContractView {
    /// What holds of every instance: a record exists only after a deposit,
    /// and a record that exists is well formed.
    pub open spec fn wf(self) -> bool {
        match self.balance {
            Some(record) => self.init && record.wf(),
            None => true,
        }
    }

    /// Whether the slot `key` is occupied.
    pub open spec fn has(self, key: DataKey) -> bool {
        match key {
            DataKey::Init => self.init,
            DataKey::Balance => self.balance is Some,
        }
    }

    /// Why a deposit is refused before any funds are asked for, if it is:
    /// the first of its preconditions that fails, in the order in which they
    /// are checked.
    pub open spec fn deposit_refusal(
        self,
        amount_per_beneficiary: int,
        beneficiaries: Seq<Address>,
        authorized: bool,
    ) -> Option<Error> {
        if amount_per_beneficiary < 0 {
            Some(Error::InvalidAmount)
        } else if beneficiaries.len() > MAX_BENEFICIARIES {
            Some(Error::TooManyBeneficiaries)
        } else if self.init {
            Some(Error::AlreadyInitialized)
        } else if !authorized {
            Some(Error::Unauthorized)
        } else {
            None
        }
    }

    /// How a deposit ends: with the reason for its refusal, with
    /// `TransferFailed` if the funds did not move, and with success
    /// otherwise.
    pub open spec fn deposit_outcome(
        self,
        amount_per_beneficiary: int,
        beneficiaries: Seq<Address>,
        authorized: bool,
        transferred: bool,
    ) -> Result<(), Error> {
        match self.deposit_refusal(amount_per_beneficiary, beneficiaries, authorized) {
            Some(reason) => Err(reason),
            None => if transferred {
                Ok(())
            } else {
                Err(Error::TransferFailed)
            },
        }
    }

    /// The instance after a successful deposit: the flag is set and the
    /// record is the one that the deposit opens.
    pub open spec fn after_deposit(
        self,
        token: Address,
        amount_per_beneficiary: int,
        beneficiaries: Seq<Address>,
        time_bound: TimeBound,
    ) -> ContractView {
        ContractView {
            address: self.address,
            init: true,
            balance: Some(
                ClaimableBalanceView::opened(
                    token,
                    amount_per_beneficiary,
                    beneficiaries,
                    time_bound,
                ),
            ),
        }
    }

    /// Why a claim is refused before any funds are asked for, if it is: the
    /// first of its preconditions that fails, in the order in which they are
    /// checked.
    pub open spec fn claim_refusal(self, beneficiary: Address, now: u64, authorized: bool) -> Option<
        Error,
    > {
        if !authorized {
            Some(Error::Unauthorized)
        } else {
            match self.balance {
                None => Some(Error::NotInitialized),
                Some(record) => if !record.beneficiaries.contains(beneficiary) {
                    Some(Error::NotABeneficiary)
                } else if !record.time_bound.holds(now) {
                    Some(Error::TimeBoundNotSatisfied)
                } else if record.claimed_beneficiaries.contains(beneficiary) {
                    Some(Error::AlreadyClaimed)
                } else {
                    None
                },
            }
        }
    }

    /// How a claim ends: with the reason for its refusal, with
    /// `TransferFailed` if the funds did not move, and with success
    /// otherwise.
    pub open spec fn claim_outcome(
        self,
        beneficiary: Address,
        now: u64,
        authorized: bool,
        transferred: bool,
    ) -> Result<(), Error> {
        match self.claim_refusal(beneficiary, now, authorized) {
            Some(reason) => Err(reason),
            None => if transferred {
                Ok(())
            } else {
                Err(Error::TransferFailed)
            },
        }
    }

    /// The instance after a successful claim by `beneficiary`: the record is
    /// gone if the claim took the last outstanding share, and else records
    /// the claim. The flag stays set.
    pub open spec fn after_claim(self, beneficiary: Address) -> ContractView
        recommends
            self.balance is Some,
    {
        let record = self.balance->0;
        ContractView {
            address: self.address,
            init: self.init,
            balance: if record.on_last_share() {
                None
            } else {
                Some(record.claimed_by(beneficiary))
            },
        }
    }
}

impl View for MultiPartyClaimableBalanceContract {
    type V = ContractView;

    closed spec fn view(&self) -> ContractView {
        ContractView { address: self.address, init: self.init, balance: slot_view(self.balance) }
    }
}

impl MultiPartyClaimableBalanceContract {
    /// Whether the instance is well formed. `new` and `restore` give only
    /// such instances, and `deposit` and `claim` keep them so.
    pub open spec fn wf(&self) -> bool {
        self@.wf()
    }

    /// A fresh instance at `address`: no deposit was made, no record exists.
    pub fn new(address: Address) -> (instance: Self)
        ensures
            instance.wf(),
            instance@ == (ContractView { address, init: false, balance: None }),
    {
        MultiPartyClaimableBalanceContract { address, init: false, balance: None }
    }

    /// Rebuilds an instance from what was stored for it. The parts are
    /// accepted exactly when they form a well-formed instance.
    pub fn restore(address: Address, init: bool, balance: Option<ClaimableBalance>) -> (instance:
        Option<Self>)
        ensures
            match instance {
                Some(restored) => restored.wf() && restored@ == (ContractView {
                    address,
                    init,
                    balance: slot_view(balance),
                }),
                None => !(ContractView { address, init, balance: slot_view(balance) }).wf(),
            },
    {
        let valid = match &balance {
            Some(record) => init && record.is_valid(),
            None => true,
        };
        if valid {
            Some(MultiPartyClaimableBalanceContract { address, init, balance })
        } else {
            None
        }
    }

    /// The instance's own account.
    pub fn address(&self) -> (address: Address)
        ensures
            address == self@.address,
    {
        self.address
    }

    /// Whether a deposit was made on this instance.
    pub fn is_initialized(&self) -> (init: bool)
        ensures
            init == self@.init,
    {
        self.init
    }

    /// Whether the slot `key` is occupied.
    pub fn has(&self, key: DataKey) -> (occupied: bool)
        ensures
            occupied == self@.has(key),
    {
        match key {
            DataKey::Init => self.init,
            DataKey::Balance => self.balance.is_some(),
        }
    }

    /// The escrow record, while it exists.
    pub fn balance(&self) -> (record: Option<&ClaimableBalance>)
        ensures
            match record {
                Some(found) => self@.balance == Some(found@),
                None => self@.balance is None,
            },
    {
        self.balance.as_ref()
    }

    /// The first precondition of a deposit that fails, if one does.
    fn refuse_deposit(
        &self,
        amount_per_beneficiary: i128,
        beneficiaries: &Vec<Address>,
        authorized: bool,
    ) -> (refusal: Option<Error>)
        ensures
            refusal == self@.deposit_refusal(
                amount_per_beneficiary as int,
                beneficiaries@,
                authorized,
            ),
    {
        if amount_per_beneficiary < 0 {
            Some(Error::InvalidAmount)
        } else if beneficiaries.len() > MAX_BENEFICIARIES {
            Some(Error::TooManyBeneficiaries)
        } else if self.init {
            Some(Error::AlreadyInitialized)
        } else if !authorized {
            Some(Error::Unauthorized)
        } else {
            None
        }
    }

    /// Decides a deposit up to the transfer: checks the amount, the number
    /// of beneficiaries, that no deposit was made before and that the
    /// depositor authorized the call, in this order, and returns the first
    /// failure. Where all hold, it returns the transfer that the deposit
    /// needs: every beneficiary's share, from the depositor to the instance.
    /// That sum has to fit the 128 bits of an amount.
    pub fn transfer_for_deposit(
        &self,
        from: &Address,
        token: &Address,
        amount_per_beneficiary: i128,
        beneficiaries: &Vec<Address>,
        authorized: bool,
    ) -> (result: Result<Transfer, Error>)
        requires
            self@.deposit_refusal(amount_per_beneficiary as int, beneficiaries@, authorized) is None
                ==> amount_per_beneficiary * beneficiaries@.len() <= i128::MAX,
        ensures
            match result {
                Ok(transfer) => {
                    &&& self@.deposit_refusal(
                        amount_per_beneficiary as int,
                        beneficiaries@,
                        authorized,
                    ) is None
                    &&& transfer.token == *token
                    &&& transfer.from == *from
                    &&& transfer.to == self@.address
                    &&& transfer.amount == amount_per_beneficiary * beneficiaries@.len()
                },
                Err(reason) => self@.deposit_refusal(
                    amount_per_beneficiary as int,
                    beneficiaries@,
                    authorized,
                ) == Some(reason),
            },
    {
        if let Some(reason) = self.refuse_deposit(amount_per_beneficiary, beneficiaries, authorized) {
            return Err(reason);
        }
        let count: i128 = beneficiaries.len() as i128;
        Ok(
            Transfer {
                token: *token,
                from: *from,
                to: self.address,
                amount: amount_per_beneficiary * count,
            },
        )
    }

    /// Completes a deposit once the host has tried the transfer. The call
    /// fails as `transfer_for_deposit` does, and with `TransferFailed` if
    /// the funds did not move; a failed deposit changes nothing. A
    /// successful one sets the flag and opens the record: it holds
    /// `amount_per_beneficiary` for each beneficiary, and nobody has
    /// claimed. The amount held has to fit the 128 bits of an amount.
    pub fn deposit(
        &mut self,
        token: Address,
        amount_per_beneficiary: i128,
        beneficiaries: Vec<Address>,
        time_bound: TimeBound,
        authorized: bool,
        transferred: bool,
    ) -> (result: Result<(), Error>)
        requires
            old(self).wf(),
            old(self)@.deposit_outcome(
                amount_per_beneficiary as int,
                beneficiaries@,
                authorized,
                transferred,
            ) is Ok ==> amount_per_beneficiary * beneficiaries@.len() <= i128::MAX,
        ensures
            final(self).wf(),
            result == old(self)@.deposit_outcome(
                amount_per_beneficiary as int,
                beneficiaries@,
                authorized,
                transferred,
            ),
            result is Ok ==> final(self)@ == old(self)@.after_deposit(
                token,
                amount_per_beneficiary as int,
                beneficiaries@,
                time_bound,
            ),
            result is Ok ==> final(self)@.balance->0.total_amount == amount_per_beneficiary
                * beneficiaries@.len(),
            result is Err ==> final(self)@ == old(self)@,
    {
        if let Some(reason) = self.refuse_deposit(amount_per_beneficiary, &beneficiaries, authorized) {
            return Err(reason);
        }
        if !transferred {
            return Err(Error::TransferFailed);
        }
        let count: i128 = beneficiaries.len() as i128;
        let record = ClaimableBalance {
            token,
            amount_per_beneficiary,
            total_amount: amount_per_beneficiary * count,
            beneficiaries,
            claimed_beneficiaries: Vec::new(),
            time_bound,
        };
        assert(record@ == ClaimableBalanceView::opened(
            token,
            amount_per_beneficiary as int,
            beneficiaries@,
            time_bound,
        ));
        self.balance = Some(record);
        self.init = true;
        Ok(())
    }

    /// Decides a claim up to the transfer: checks that the claimant
    /// authorized the call, that the record exists, that the claimant is a
    /// beneficiary, that the time bound admits `now` and that the claimant
    /// has not claimed before, in this order, and returns the first failure.
    /// Where all hold, it returns the transfer that the claim needs: one
    /// share, from the instance to the claimant.
    pub fn transfer_for_claim(&self, beneficiary: &Address, now: u64, authorized: bool) -> (result:
        Result<Transfer, Error>)
        ensures
            match result {
                Ok(transfer) => {
                    &&& self@.claim_refusal(*beneficiary, now, authorized) is None
                    &&& self@.balance is Some
                    &&& transfer.token == self@.balance->0.token
                    &&& transfer.from == self@.address
                    &&& transfer.to == *beneficiary
                    &&& transfer.amount == self@.balance->0.amount_per_beneficiary
                },
                Err(reason) => self@.claim_refusal(*beneficiary, now, authorized) == Some(reason),
            },
    {
        if !authorized {
            return Err(Error::Unauthorized);
        }
        match &self.balance {
            None => Err(Error::NotInitialized),
            Some(record) => {
                if !contains(&record.beneficiaries, beneficiary) {
                    Err(Error::NotABeneficiary)
                } else if !check_time_bound(now, &record.time_bound) {
                    Err(Error::TimeBoundNotSatisfied)
                } else if contains(&record.claimed_beneficiaries, beneficiary) {
                    Err(Error::AlreadyClaimed)
                } else {
                    Ok(
                        Transfer {
                            token: record.token,
                            from: self.address,
                            to: *beneficiary,
                            amount: record.amount_per_beneficiary,
                        },
                    )
                }
            },
        }
    }

    /// Completes a claim once the host has tried the transfer. The call
    /// fails as `transfer_for_claim` does, and with `TransferFailed` if the
    /// funds did not move; a failed claim changes nothing. A successful one
    /// appends the claimant to those who have claimed and takes one share
    /// off the amount held, or removes the record if that share was the last
    /// outstanding one.
    pub fn claim(&mut self, beneficiary: Address, now: u64, authorized: bool, transferred: bool) -> (result:
        Result<(), Error>)
        requires
            old(self).wf(),
        ensures
            final(self).wf(),
            result == old(self)@.claim_outcome(beneficiary, now, authorized, transferred),
            result is Ok ==> final(self)@ == old(self)@.after_claim(beneficiary),
            result is Ok ==> (final(self)@.balance is None <==> old(self)@.balance->0.on_last_share()),
            result is Err ==> final(self)@ == old(self)@,
    {
        match self.transfer_for_claim(&beneficiary, now, authorized) {
            Err(reason) => {
                return Err(reason);
            },
            Ok(_) => {},
        }
        if !transferred {
            return Err(Error::TransferFailed);
        }
        let ghost before = self@.balance->0;
        let slot = self.balance.take();
        let mut record = slot.unwrap();
        record.claimed_beneficiaries.push(beneficiary);
        if record.claimed_beneficiaries.len() != record.beneficiaries.len() {
            assert(before.amount_per_beneficiary * (before.outstanding() - 1)
                == before.amount_per_beneficiary * before.outstanding()
                - before.amount_per_beneficiary) by (nonlinear_arith);
            assert(before.amount_per_beneficiary * before.outstanding()
                >= before.amount_per_beneficiary) by (nonlinear_arith)
                requires
                    before.amount_per_beneficiary >= 0,
                    before.outstanding() >= 1,
            ;
            record.total_amount = record.total_amount - record.amount_per_beneficiary;
            assert(record@ == before.claimed_by(beneficiary));
            self.balance = Some(record);
        }
        Ok(())
    }
}

} // verus!
