use wager_engine::ledger::{Ledger, LedgerError};

#[test]
fn fresh_ledger_is_empty() {
    let l = Ledger::new(3);
    assert_eq!(l.len(), 3);
    assert_eq!(l.balance_of(0), 0);
    assert_eq!(l.total_balance(), 0);
}

#[test]
fn fund_and_transfer_move_exact_amounts() {
    let mut l = Ledger::new(2);
    assert!(l.fund(0, 1_000).is_ok());
    assert_eq!(l.transfer(0, 1, 400), Ok(()));
    assert_eq!(l.balance_of(0), 600);
    assert_eq!(l.balance_of(1), 400);
    assert_eq!(l.total_balance(), 1_000);
}

#[test]
fn transfer_rejects_overdraft_and_moves_nothing() {
    let mut l = Ledger::new(2);
    assert!(l.fund(0, 100).is_ok());
    assert_eq!(l.transfer(0, 1, 101), Err(LedgerError::InsufficientFunds));
    assert_eq!(l.balance_of(0), 100);
    assert_eq!(l.balance_of(1), 0);
}

#[test]
fn fund_rejects_supply_past_capacity() {
    let mut l = Ledger::new(2);
    assert!(l.fund(0, u64::MAX).is_ok());
    assert_eq!(l.fund(1, 1), Err(LedgerError::CapacityExceeded));
    assert_eq!(l.balance_of(1), 0);
}

#[test]
fn transfer_to_self_changes_nothing() {
    let mut l = Ledger::new(1);
    assert!(l.fund(0, 50).is_ok());
    assert_eq!(l.transfer(0, 0, 30), Ok(()));
    assert_eq!(l.balance_of(0), 50);
}
