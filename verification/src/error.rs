//! Why a deposit or a claim is refused.

use vstd::prelude::*;

verus! {

/// The reasons for which a call fails. A failed call changes nothing.
#[derive(Clone, Copy, Debug, PartialEq, Eq, Structural)]
pub enum Error {
    /// The amount per beneficiary is negative.
    InvalidAmount,
    /// More beneficiaries are named than one escrow admits.
    TooManyBeneficiaries,
    /// A deposit was already made on this instance.
    AlreadyInitialized,
    /// No escrow record exists: none was deposited, or every share was claimed.
    NotInitialized,
    /// The claimant is not among the beneficiaries of the escrow.
    NotABeneficiary,
    /// The ledger time lies outside the escrow's time bound.
    TimeBoundNotSatisfied,
    /// The claimant has already received their share.
    AlreadyClaimed,
    /// The caller did not authorize the call.
    Unauthorized,
    /// The asset-transfer service did not move the funds.
    TransferFailed,
}

impl Error {
    /// The text that `message` returns for each reason.
    pub open spec fn message_text(self) -> Seq<char> {
        match self {
            Error::InvalidAmount => "amount must be positive"@,
            Error::TooManyBeneficiaries => "too many beneficiaries"@,
            Error::AlreadyInitialized => "contract has been already initialized"@,
            Error::NotInitialized => "contract has not been initialized"@,
            Error::NotABeneficiary => "beneficiary not in list"@,
            Error::TimeBoundNotSatisfied => "time bound not satisfied"@,
            Error::AlreadyClaimed => "beneficiary already claimed"@,
            Error::Unauthorized => "caller is not authorized"@,
            Error::TransferFailed => "transfer failed"@,
        }
    }

    /// A short description of the reason, fit for an abort message.
    pub fn message(&self) -> (text: &'static str)
        ensures
            text@ == self.message_text(),
    {
        match self {
            Error::InvalidAmount => "amount must be positive",
            Error::TooManyBeneficiaries => "too many beneficiaries",
            Error::AlreadyInitialized => "contract has been already initialized",
            Error::NotInitialized => "contract has not been initialized",
            Error::NotABeneficiary => "beneficiary not in list",
            Error::TimeBoundNotSatisfied => "time bound not satisfied",
            Error::AlreadyClaimed => "beneficiary already claimed",
            Error::Unauthorized => "caller is not authorized",
            Error::TransferFailed => "transfer failed",
        }
    }
}

} // verus!
