use lbp::events::{expect_events, last_events, Event};
use lbp::ledger::{AccountData, Ledger};
use lbp::types::Error;

const ANN: u64 = 7;
const BEN: u64 = 8;
const GOLD: u32 = 1;
const SALT: u32 = 2;

#[test]
fn new_ledger_holds_nothing() {
    let ledger = Ledger::new();
    assert_eq!(ledger.free_balance(GOLD, ANN), 0);
    assert_eq!(ledger.reserved_balance(GOLD, ANN), 0);
    assert_eq!(ledger.account(SALT, BEN), AccountData { free: 0, reserved: 0 });
}

#[test]
fn deposit_and_withdraw_touch_one_account_and_one_asset() {
    let mut ledger = Ledger::new();
    assert_eq!(ledger.deposit(GOLD, ANN, 100), Ok(()));
    assert_eq!(ledger.deposit(GOLD, ANN, 5), Ok(()));
    assert_eq!(ledger.free_balance(GOLD, ANN), 105);
    assert_eq!(ledger.free_balance(SALT, ANN), 0);
    assert_eq!(ledger.free_balance(GOLD, BEN), 0);
    assert_eq!(ledger.withdraw(GOLD, ANN, 105), Ok(()));
    assert_eq!(ledger.free_balance(GOLD, ANN), 0);
    assert_eq!(ledger, Ledger::new());
}

#[test]
fn accounts_and_assets_do_not_collide() {
    let mut ledger = Ledger::new();
    assert_eq!(ledger.deposit(0, 1, 11), Ok(()));
    assert_eq!(ledger.deposit(1, 0, 22), Ok(()));
    assert_eq!(ledger.deposit(u32::MAX, 0, 33), Ok(()));
    assert_eq!(ledger.deposit(0, u64::MAX, 44), Ok(()));
    assert_eq!(ledger.deposit(u32::MAX, u64::MAX, 55), Ok(()));
    assert_eq!(ledger.free_balance(0, 1), 11);
    assert_eq!(ledger.free_balance(1, 0), 22);
    assert_eq!(ledger.free_balance(u32::MAX, 0), 33);
    assert_eq!(ledger.free_balance(0, u64::MAX), 44);
    assert_eq!(ledger.free_balance(u32::MAX, u64::MAX), 55);
    assert_eq!(ledger.free_balance(0, 0), 0);
}

#[test]
fn refused_movements_change_nothing() {
    let mut ledger = Ledger::new();
    assert_eq!(ledger.deposit(GOLD, ANN, 100), Ok(()));
    let before = ledger.clone();
    assert_eq!(ledger.withdraw(GOLD, ANN, 101), Err(Error::BalanceTooLow));
    assert_eq!(ledger.withdraw(SALT, ANN, 1), Err(Error::BalanceTooLow));
    assert_eq!(ledger.deposit(GOLD, ANN, u128::MAX - 99), Err(Error::Overflow));
    assert_eq!(ledger.reserve(GOLD, ANN, 101), Err(Error::BalanceTooLow));
    assert_eq!(ledger.unreserve(GOLD, ANN, 1), Err(Error::BalanceTooLow));
    assert_eq!(ledger.transfer(GOLD, ANN, BEN, 101), Err(Error::BalanceTooLow));
    assert_eq!(ledger, before);
    assert_eq!(ledger.deposit(GOLD, ANN, u128::MAX - 100), Ok(()));
    assert_eq!(ledger.free_balance(GOLD, ANN), u128::MAX);
}

#[test]
fn reserve_sets_aside_and_unreserve_releases() {
    let mut ledger = Ledger::new();
    assert_eq!(ledger.deposit(GOLD, ANN, 100), Ok(()));
    assert_eq!(ledger.reserve(GOLD, ANN, 30), Ok(()));
    assert_eq!(ledger.account(GOLD, ANN), AccountData { free: 70, reserved: 30 });
    assert_eq!(ledger.withdraw(GOLD, ANN, 71), Err(Error::BalanceTooLow));
    assert_eq!(ledger.unreserve(GOLD, ANN, 31), Err(Error::BalanceTooLow));
    assert_eq!(ledger.account(GOLD, ANN), AccountData { free: 70, reserved: 30 });
    assert_eq!(ledger.unreserve(GOLD, ANN, 30), Ok(()));
    assert_eq!(ledger.account(GOLD, ANN), AccountData { free: 100, reserved: 0 });
}

#[test]
fn reserved_and_free_sums_must_fit() {
    let mut ledger = Ledger::new();
    assert_eq!(ledger.deposit(GOLD, ANN, u128::MAX), Ok(()));
    assert_eq!(ledger.reserve(GOLD, ANN, u128::MAX), Ok(()));
    assert_eq!(ledger.deposit(GOLD, ANN, 1), Ok(()));
    let before = ledger.clone();
    assert_eq!(ledger.reserve(GOLD, ANN, 1), Err(Error::Overflow));
    assert_eq!(ledger, before);
    assert_eq!(ledger.deposit(GOLD, ANN, u128::MAX - 1), Ok(()));
    let before = ledger.clone();
    assert_eq!(ledger.unreserve(GOLD, ANN, 1), Err(Error::Overflow));
    assert_eq!(ledger, before);
}

#[test]
fn transfer_moves_between_accounts() {
    let mut ledger = Ledger::new();
    assert_eq!(ledger.deposit(GOLD, ANN, 100), Ok(()));
    assert_eq!(ledger.transfer(GOLD, ANN, BEN, 40), Ok(()));
    assert_eq!(ledger.free_balance(GOLD, ANN), 60);
    assert_eq!(ledger.free_balance(GOLD, BEN), 40);
    // to oneself: nothing moves
    assert_eq!(ledger.transfer(GOLD, ANN, ANN, 60), Ok(()));
    assert_eq!(ledger.free_balance(GOLD, ANN), 60);
    // the receiver's balance must fit
    assert_eq!(ledger.deposit(GOLD, BEN, u128::MAX - 40), Ok(()));
    let before = ledger.clone();
    assert_eq!(ledger.transfer(GOLD, ANN, BEN, 1), Err(Error::Overflow));
    assert_eq!(ledger, before);
}

#[test]
fn two_movements_happen_together_or_not_at_all() {
    let mut ledger = Ledger::new();
    assert_eq!(ledger.deposit(GOLD, ANN, 100), Ok(()));
    assert_eq!(ledger.deposit(SALT, ANN, 10), Ok(()));
    let before = ledger.clone();
    assert_eq!(ledger.withdraw_both(ANN, GOLD, 50, SALT, 11), Err(Error::BalanceTooLow));
    assert_eq!(ledger, before);
    assert_eq!(ledger.withdraw_both(ANN, GOLD, 101, SALT, 1), Err(Error::BalanceTooLow));
    assert_eq!(ledger, before);
    // the same asset twice: both amounts come out of one balance
    assert_eq!(ledger.withdraw_both(ANN, GOLD, 60, GOLD, 41), Err(Error::BalanceTooLow));
    assert_eq!(ledger, before);
    assert_eq!(ledger.withdraw_both(ANN, GOLD, 60, GOLD, 40), Ok(()));
    assert_eq!(ledger.free_balance(GOLD, ANN), 0);
    assert_eq!(ledger.withdraw_both(ANN, SALT, 0, SALT, 10), Ok(()));
    assert_eq!(ledger, Ledger::new());

    assert_eq!(ledger.deposit(SALT, ANN, u128::MAX - 5), Ok(()));
    let before = ledger.clone();
    assert_eq!(ledger.deposit_both(ANN, GOLD, 50, SALT, 6), Err(Error::Overflow));
    assert_eq!(ledger, before);
    assert_eq!(ledger.deposit_both(ANN, SALT, 3, SALT, 3), Err(Error::Overflow));
    assert_eq!(ledger, before);
    assert_eq!(ledger.deposit_both(ANN, GOLD, 50, SALT, 5), Ok(()));
    assert_eq!(ledger.free_balance(GOLD, ANN), 50);
    assert_eq!(ledger.free_balance(SALT, ANN), u128::MAX);
}

#[test]
fn last_events_are_the_end_of_the_log() {
    let log = vec![Event::Paused(1, 10), Event::Unpaused(1, 10), Event::PoolUpdated(1, 10)];
    assert_eq!(last_events(&log, 0), vec![]);
    assert_eq!(last_events(&log, 1), vec![Event::PoolUpdated(1, 10)]);
    assert_eq!(last_events(&log, 2), vec![Event::Unpaused(1, 10), Event::PoolUpdated(1, 10)]);
    assert_eq!(last_events(&log, 3), log);
    assert_eq!(last_events(&log, 4), log);
    assert_eq!(last_events(&vec![], 4), vec![]);
}

#[test]
fn expected_events_are_compared_with_the_end_of_the_log() {
    let log = vec![Event::Paused(1, 10), Event::Unpaused(1, 10), Event::PoolUpdated(1, 10)];
    assert!(expect_events(&log, &vec![]));
    assert!(expect_events(&log, &vec![Event::PoolUpdated(1, 10)]));
    assert!(expect_events(&log, &vec![Event::Unpaused(1, 10), Event::PoolUpdated(1, 10)]));
    assert!(expect_events(&log, &log.clone()));
    assert!(!expect_events(&log, &vec![Event::Unpaused(1, 10)]));
    assert!(!expect_events(&log, &vec![Event::PoolUpdated(2, 10)]));
    assert!(!expect_events(&log, &vec![Event::PoolUpdated(1, 11)]));
    assert!(!expect_events(&log, &vec![Event::Paused(1, 10), Event::PoolUpdated(1, 10)]));
    // more events than the log holds
    assert!(!expect_events(
        &log,
        &vec![
            Event::Paused(1, 10),
            Event::Paused(1, 10),
            Event::Unpaused(1, 10),
            Event::PoolUpdated(1, 10)
        ]
    ));
    assert!(expect_events(&vec![], &vec![]));
}
