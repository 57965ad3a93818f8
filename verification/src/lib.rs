//! A multi-party claimable balance: one depositor escrows a fixed share for
//! each of a bounded list of beneficiaries, who may each claim it once while
//! a time bound holds.
//!
//! The crate decides; it moves no funds and stores nothing durably. The host
//! that embeds it authenticates callers, reads the ledger clock, carries out
//! the transfers the crate asks for and persists the state it hands back.

pub mod address;
pub mod balance;
pub mod contract;
pub mod error;
pub mod laws;
pub mod time_bound;

pub use address::{all_among, all_distinct, contains, Address, AddressKind};
pub use balance::{ClaimableBalance, ClaimableBalanceView, MAX_BENEFICIARIES};
pub use contract::{ContractView, DataKey, MultiPartyClaimableBalanceContract, Transfer};
pub use error::Error;
pub use time_bound::{check_time_bound, TimeBound, TimeBoundKind};
