use custody_ledger::ledger::DepositError;
use custody_ledger::ledger::Outcome;
use custody_ledger::ledger::RejectReason;
use custody_ledger::ledger::Welcome;

fn ntoy(near_amount: u128) -> u128 {
    near_amount * 10u128.pow(24)
}

#[test]
fn test_deposit() {
    let mut contract = Welcome::default();
    contract.deposit("secret".to_string(), ntoy(100));

    assert_eq!(ntoy(100), contract.get_deposit("secret".to_string()));
}

#[test]
fn test_withdraw() {
    let mut contract = Welcome::default();
    contract.deposit("secret".to_string(), ntoy(100));

    assert_eq!(ntoy(100), contract.get_deposit("secret".to_string()));

    contract.withdraw("secret".to_string());
    assert_eq!(ntoy(0), contract.get_deposit("secret".to_string()));
}

#[test]
fn deposit_then_read_reads_back_amount() {
    let mut ledger = Welcome::new();
    ledger.deposit("secret".to_string(), 100);
    assert_eq!(ledger.get_deposit("secret".to_string()), 100);
}

#[test]
fn unknown_key_reads_zero() {
    let ledger = Welcome::new();
    assert_eq!(ledger.get_deposit("never-deposited".to_string()), 0);
}

#[test]
fn withdraw_pays_full_balance_and_zeroes_it() {
    let mut ledger = Welcome::new();
    ledger.deposit("secret".to_string(), 100);

    let outcome = ledger.withdraw("secret".to_string());
    assert_eq!(outcome, Outcome::Paid(100));
    assert_eq!(ledger.get_deposit("secret".to_string()), 0);
}

#[test]
fn second_withdrawal_pays_nothing() {
    let mut ledger = Welcome::new();
    ledger.deposit("k".to_string(), 100);

    let first = ledger.withdraw("k".to_string());
    assert_eq!(first, Outcome::Paid(100));

    let second = ledger.withdraw("k".to_string());
    assert_eq!(second, Outcome::Rejected(RejectReason::ZeroBalance));
    assert_eq!(ledger.get_deposit("k".to_string()), 0);
}

#[test]
fn unknown_key_withdrawal_is_rejected_and_a_noop() {
    let mut ledger = Welcome::new();

    let outcome = ledger.withdraw("never-deposited".to_string());
    assert_eq!(outcome, Outcome::Rejected(RejectReason::UnknownKey));
    assert_eq!(RejectReason::UnknownKey.message(), "Wrong key".to_string());
    assert_eq!(ledger.get_deposit("never-deposited".to_string()), 0);
}

#[test]
fn zero_balance_withdrawal_is_rejected() {
    let mut ledger = Welcome::new();
    ledger.deposit("funded-with-nothing".to_string(), 0);

    let outcome = ledger.withdraw("funded-with-nothing".to_string());
    assert_eq!(outcome, Outcome::Rejected(RejectReason::ZeroBalance));
    assert_eq!(
        RejectReason::ZeroBalance.message(),
        "Missing deposit".to_string()
    );
}

#[test]
fn repeated_deposit_replaces_recorded_amount() {
    let mut ledger = Welcome::new();
    ledger.deposit("k".to_string(), 100);
    ledger.deposit("k".to_string(), 40);
    assert_eq!(ledger.get_deposit("k".to_string()), 40);
}

#[test]
fn accumulating_deposits_sum() {
    let mut ledger = Welcome::new();
    assert_eq!(ledger.deposit_accumulate("k".to_string(), 60), Ok(()));
    assert_eq!(ledger.deposit_accumulate("k".to_string(), 40), Ok(()));
    assert_eq!(ledger.get_deposit("k".to_string()), 100);
}

#[test]
fn overflowing_accumulation_is_rejected_unchanged() {
    let mut ledger = Welcome::new();
    assert_eq!(
        ledger.deposit_accumulate("k".to_string(), u128::MAX),
        Ok(())
    );
    assert_eq!(
        ledger.deposit_accumulate("k".to_string(), 1),
        Err(DepositError::ArithmeticOverflow)
    );
    assert_eq!(ledger.get_deposit("k".to_string()), u128::MAX);
}

#[test]
fn largest_amount_is_paid_in_full() {
    let mut ledger = Welcome::new();
    ledger.deposit("k".to_string(), u128::MAX);
    assert_eq!(ledger.withdraw("k".to_string()), Outcome::Paid(u128::MAX));
    assert_eq!(ledger.get_deposit("k".to_string()), 0);
}

#[test]
fn withdrawal_leaves_other_keys_alone() {
    let mut ledger = Welcome::new();
    ledger.deposit("a".to_string(), 7);
    ledger.deposit("b".to_string(), 9);

    assert_eq!(ledger.withdraw("a".to_string()), Outcome::Paid(7));
    assert_eq!(ledger.get_deposit("b".to_string()), 9);
}

#[test]
fn fresh_ledger_holds_nothing() {
    let ledger = Welcome::default();
    assert_eq!(ledger.get_deposit("anything".to_string()), 0);
}
