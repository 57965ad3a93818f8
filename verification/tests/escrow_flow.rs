//! Whole deposits and claims against a small in-memory token ledger that
//! plays the host: it carries out the transfers the instance asks for and
//! aborts, as a host does, when a call is refused.

use std::collections::HashMap;

use claimable_balance::{
    Address, AddressKind, MultiPartyClaimableBalanceContract, TimeBound, TimeBoundKind, Transfer,
};

fn contract_address(tag: u8) -> Address {
    Address { kind: AddressKind::Contract, key: [tag; 32] }
}

fn account_address(tag: u8) -> Address {
    Address { kind: AddressKind::Account, key: [tag; 32] }
}

struct Ledger {
    balances: HashMap<(Address, Address), i128>,
}

impl Ledger {
    fn new() -> Self {
        Ledger { balances: HashMap::new() }
    }

    fn mint(&mut self, token: &Address, to: &Address, amount: i128) {
        *self.balances.entry((*token, *to)).or_insert(0) += amount;
    }

    fn balance(&self, token: &Address, holder: &Address) -> i128 {
        self.balances.get(&(*token, *holder)).copied().unwrap_or(0)
    }

    fn transfer(&mut self, transfer: &Transfer) -> bool {
        if transfer.amount < 0 || self.balance(&transfer.token, &transfer.from) < transfer.amount {
            return false;
        }
        *self.balances.entry((transfer.token, transfer.from)).or_insert(0) -= transfer.amount;
        *self.balances.entry((transfer.token, transfer.to)).or_insert(0) += transfer.amount;
        true
    }
}

struct ClaimableBalanceTest {
    now: u64,
    deposit_address: Address,
    claim_address: [Address; 3],
    token: Address,
    ledger: Ledger,
    contract: MultiPartyClaimableBalanceContract,
    transfers: Vec<Transfer>,
}

impl ClaimableBalanceTest {
    fn setup() -> Self {
        let deposit_address = account_address(1);
        let claim_address = [account_address(2), account_address(3), account_address(4)];
        let token = contract_address(5);
        let mut ledger = Ledger::new();
        ledger.mint(&token, &deposit_address, 1000);
        ClaimableBalanceTest {
            now: 12345,
            deposit_address,
            claim_address,
            token,
            ledger,
            contract: MultiPartyClaimableBalanceContract::new(contract_address(6)),
            transfers: Vec::new(),
        }
    }

    fn balance(&self, holder: &Address) -> i128 {
        self.ledger.balance(&self.token, holder)
    }

    fn deposit(
        &mut self,
        from: &Address,
        token: &Address,
        amount_per_beneficiary: i128,
        beneficiaries: Vec<Address>,
        time_bound: TimeBound,
    ) {
        let request = match self.contract.transfer_for_deposit(
            from,
            token,
            amount_per_beneficiary,
            &beneficiaries,
            true,
        ) {
            Ok(request) => request,
            Err(reason) => panic!("{}", reason.message()),
        };
        let moved = self.ledger.transfer(&request);
        if moved {
            self.transfers.push(request);
        }
        if let Err(reason) =
            self.contract.deposit(*token, amount_per_beneficiary, beneficiaries, time_bound, true, moved)
        {
            panic!("{}", reason.message());
        }
    }

    fn claim(&mut self, beneficiary: &Address) {
        let request = match self.contract.transfer_for_claim(beneficiary, self.now, true) {
            Ok(request) => request,
            Err(reason) => panic!("{}", reason.message()),
        };
        let moved = self.ledger.transfer(&request);
        if moved {
            self.transfers.push(request);
        }
        if let Err(reason) = self.contract.claim(*beneficiary, self.now, true, moved) {
            panic!("{}", reason.message());
        }
    }
}

#[test]
fn test_deposit_and_claim() {
    let mut test = ClaimableBalanceTest::setup();
    let (depositor, token) = (test.deposit_address, test.token);
    let escrow = test.contract.address();
    test.deposit(
        &depositor,
        &token,
        100,
        vec![test.claim_address[0], test.claim_address[1]],
        TimeBound { kind: TimeBoundKind::Before, timestamp: 12346 },
    );

    assert_eq!(
        test.transfers,
        vec![Transfer { token, from: depositor, to: escrow, amount: 200_i128 }]
    );
    let record = test.contract.balance().unwrap();
    assert_eq!(record.token, token);
    assert_eq!(record.amount_per_beneficiary, 100_i128);
    assert_eq!(record.beneficiaries, vec![test.claim_address[0], test.claim_address[1]]);
    assert_eq!(record.time_bound, TimeBound { kind: TimeBoundKind::Before, timestamp: 12346 });

    assert_eq!(test.balance(&test.deposit_address), 800);
    assert_eq!(test.balance(&escrow), 200);
    assert_eq!(test.balance(&test.claim_address[1]), 0);

    let claimant = test.claim_address[1];
    test.claim(&claimant);
    assert_eq!(
        test.transfers.last(),
        Some(&Transfer { token, from: escrow, to: claimant, amount: 100_i128 })
    );

    assert_eq!(test.balance(&test.deposit_address), 800);
    assert_eq!(test.balance(&escrow), 100);
    assert_eq!(test.balance(&test.claim_address[1]), 100);
}

#[test]
fn test_deposit_and_double_claim_pass() {
    let mut test = ClaimableBalanceTest::setup();
    let (depositor, token) = (test.deposit_address, test.token);
    let escrow = test.contract.address();
    test.deposit(
        &depositor,
        &token,
        100,
        vec![test.claim_address[0], test.claim_address[1]],
        TimeBound { kind: TimeBoundKind::Before, timestamp: 12346 },
    );

    assert_eq!(
        test.transfers,
        vec![Transfer { token, from: depositor, to: escrow, amount: 200_i128 }]
    );
    let record = test.contract.balance().unwrap();
    assert_eq!(record.total_amount, 200_i128);
    assert_eq!(record.claimed_beneficiaries, vec![]);

    assert_eq!(test.balance(&test.deposit_address), 800);
    assert_eq!(test.balance(&escrow), 200);
    assert_eq!(test.balance(&test.claim_address[1]), 0);

    let second = test.claim_address[1];
    test.claim(&second);
    assert_eq!(
        test.transfers.last(),
        Some(&Transfer { token, from: escrow, to: second, amount: 100_i128 })
    );
    let record = test.contract.balance().unwrap();
    assert_eq!(record.total_amount, 100_i128);
    assert_eq!(record.claimed_beneficiaries, vec![second]);

    assert_eq!(test.balance(&test.deposit_address), 800);
    assert_eq!(test.balance(&escrow), 100);
    assert_eq!(test.balance(&test.claim_address[1]), 100);

    let first = test.claim_address[0];
    test.claim(&first);
    assert_eq!(test.balance(&escrow), 0);
    assert_eq!(test.balance(&test.claim_address[0]), 100);
    assert!(test.contract.balance().is_none());
    assert!(test.contract.is_initialized());
    assert_eq!(test.transfers.len(), 3);
}

#[test]
#[should_panic(expected = "already initialized")]
fn test_double_deposit_fail() {
    let mut test = ClaimableBalanceTest::setup();
    let (depositor, token) = (test.deposit_address, test.token);
    test.deposit(
        &depositor,
        &token,
        1,
        vec![test.claim_address[0]],
        TimeBound { kind: TimeBoundKind::Before, timestamp: 12346 },
    );

    test.deposit(
        &depositor,
        &token,
        1,
        vec![test.claim_address[0]],
        TimeBound { kind: TimeBoundKind::Before, timestamp: 12346 },
    );
}

#[test]
#[should_panic(expected = "beneficiary not in list")]
fn test_rogue_claimant_fail() {
    let mut test = ClaimableBalanceTest::setup();
    let (depositor, token) = (test.deposit_address, test.token);
    test.deposit(
        &depositor,
        &token,
        100,
        vec![test.claim_address[0]],
        TimeBound { kind: TimeBoundKind::Before, timestamp: 12346 },
    );

    let rogue = test.claim_address[2];
    test.claim(&rogue);
}

#[test]
#[should_panic(expected = "time bound not satisfied")]
fn test_bad_time_fail() {
    let mut test = ClaimableBalanceTest::setup();
    let (depositor, token) = (test.deposit_address, test.token);
    test.deposit(
        &depositor,
        &token,
        100,
        vec![test.claim_address[0]],
        TimeBound { kind: TimeBoundKind::After, timestamp: 12346 },
    );

    let claimant = test.claim_address[0];
    test.claim(&claimant);
}

#[test]
#[should_panic(expected = "beneficiary already claimed")]
fn test_double_claim_fail() {
    let mut test = ClaimableBalanceTest::setup();
    let (depositor, token) = (test.deposit_address, test.token);
    test.deposit(
        &depositor,
        &token,
        100,
        vec![test.claim_address[0], test.claim_address[1]],
        TimeBound { kind: TimeBoundKind::Before, timestamp: 12346 },
    );

    let claimant = test.claim_address[0];
    test.claim(&claimant);
    assert_eq!(test.balance(&test.claim_address[0]), 100);
    test.claim(&claimant);
}

#[test]
#[should_panic(expected = "amount must be positive")]
fn test_negative_deposit_fail() {
    let mut test = ClaimableBalanceTest::setup();
    let (depositor, token) = (test.deposit_address, test.token);
    test.deposit(
        &depositor,
        &token,
        -1,
        vec![test.claim_address[0]],
        TimeBound { kind: TimeBoundKind::Before, timestamp: 12346 },
    );
}

#[test]
fn negative_deposit_moves_no_funds() {
    let mut test = ClaimableBalanceTest::setup();
    let (depositor, token) = (test.deposit_address, test.token);
    let refused = test.contract.transfer_for_deposit(
        &depositor,
        &token,
        -1,
        &vec![test.claim_address[0]],
        true,
    );
    assert_eq!(refused, Err(claimable_balance::Error::InvalidAmount));
    assert!(test.transfers.is_empty());
    assert_eq!(test.balance(&depositor), 1000);
    assert!(!test.contract.is_initialized());
}

#[test]
fn deposit_without_funds_changes_nothing() {
    let mut test = ClaimableBalanceTest::setup();
    let (depositor, token) = (test.deposit_address, test.token);
    let beneficiaries = vec![test.claim_address[0], test.claim_address[1]];
    let request =
        test.contract.transfer_for_deposit(&depositor, &token, 501, &beneficiaries, true).unwrap();
    assert_eq!(request.amount, 1002);
    let moved = test.ledger.transfer(&request);
    assert!(!moved);
    let result = test.contract.deposit(
        token,
        501,
        beneficiaries,
        TimeBound { kind: TimeBoundKind::Before, timestamp: 12346 },
        true,
        moved,
    );
    assert_eq!(result, Err(claimable_balance::Error::TransferFailed));
    assert!(!test.contract.is_initialized());
    assert!(test.contract.balance().is_none());
    assert_eq!(test.balance(&depositor), 1000);
}
