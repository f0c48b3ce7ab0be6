use one_pass::db::api::{
    add_money, can_transfer, get_balance, transfer, try_add_money, Engine, LedgerError,
};
use one_pass::db::mmap::MMap;

fn total(ledger: &MMap) -> i128 {
    ledger.get_all_balance().values().map(|cents| *cents as i128).sum()
}

#[test]
fn new_ledger_is_empty() {
    let ledger = MMap::new();
    assert!(ledger.get_all_balance().is_empty());
    assert_eq!(get_balance(&ledger, 1), Err(LedgerError::NotFound));
}

#[test]
fn credit_opens_an_account() {
    let mut ledger = MMap::new();
    add_money(&mut ledger, 100001, 8891);
    assert_eq!(get_balance(&ledger, 100001), Ok(8891));
    assert_eq!(get_balance(&ledger, 100002), Err(LedgerError::NotFound));
}

#[test]
fn two_credits_add_up() {
    let mut ledger = MMap::new();
    add_money(&mut ledger, 7, 300);
    add_money(&mut ledger, 7, 45);
    assert_eq!(get_balance(&ledger, 7), Ok(345));
    add_money(&mut ledger, 7, 5);
    assert_eq!(get_balance(&ledger, 7), Ok(350));
}

#[test]
fn credit_of_zero_opens_an_empty_account() {
    let mut ledger = MMap::new();
    add_money(&mut ledger, 9, 0);
    assert_eq!(get_balance(&ledger, 9), Ok(0));
}

#[test]
fn negative_credit_is_not_rejected() {
    let mut ledger = MMap::new();
    add_money(&mut ledger, 9, 100);
    add_money(&mut ledger, 9, -130);
    assert_eq!(get_balance(&ledger, 9), Ok(-30));
}

#[test]
fn trait_methods_and_free_functions_agree() {
    let mut ledger = MMap::new();
    Engine::add_money(&mut ledger, 1, 50);
    Engine::add_money(&mut ledger, 2, 0);
    assert_eq!(Engine::get_balance(&ledger, 1), Ok(50));
    assert_eq!(Engine::transfer(&mut ledger, 1, 2, 20), Ok(()));
    assert_eq!(get_balance(&ledger, 1), Ok(30));
    assert_eq!(get_balance(&ledger, 2), Ok(20));
}

#[test]
fn transfer_moves_the_amount() {
    let mut ledger = MMap::new();
    add_money(&mut ledger, 100001, 8891);
    add_money(&mut ledger, 100042, 0);
    assert_eq!(transfer(&mut ledger, 100001, 100042, 1000), Ok(()));
    assert_eq!(get_balance(&ledger, 100001), Ok(7891));
    assert_eq!(get_balance(&ledger, 100042), Ok(1000));
}

#[test]
fn transfer_of_the_whole_balance_leaves_zero() {
    let mut ledger = MMap::new();
    add_money(&mut ledger, 1, 500);
    add_money(&mut ledger, 2, 1);
    assert_eq!(transfer(&mut ledger, 1, 2, 500), Ok(()));
    assert_eq!(get_balance(&ledger, 1), Ok(0));
    assert_eq!(get_balance(&ledger, 2), Ok(501));
}

#[test]
fn overdraft_is_refused_and_changes_nothing() {
    let mut ledger = MMap::new();
    add_money(&mut ledger, 1, 500);
    add_money(&mut ledger, 2, 70);
    assert_eq!(transfer(&mut ledger, 1, 2, 501), Err(LedgerError::InsufficientFunds));
    assert_eq!(get_balance(&ledger, 1), Ok(500));
    assert_eq!(get_balance(&ledger, 2), Ok(70));
}

#[test]
fn overdraft_towards_a_missing_target_is_insufficient_funds() {
    let mut ledger = MMap::new();
    add_money(&mut ledger, 1, 500);
    assert_eq!(transfer(&mut ledger, 1, 2, 501), Err(LedgerError::InsufficientFunds));
    assert_eq!(get_balance(&ledger, 1), Ok(500));
    assert_eq!(get_balance(&ledger, 2), Err(LedgerError::NotFound));
}

#[test]
fn missing_source_is_not_found() {
    let mut ledger = MMap::new();
    add_money(&mut ledger, 2, 70);
    assert_eq!(transfer(&mut ledger, 1, 2, 10), Err(LedgerError::NotFound));
    assert_eq!(get_balance(&ledger, 2), Ok(70));
    assert_eq!(get_balance(&ledger, 1), Err(LedgerError::NotFound));
}

#[test]
fn missing_target_is_not_found_and_source_keeps_its_funds() {
    let mut ledger = MMap::new();
    add_money(&mut ledger, 1, 500);
    assert_eq!(transfer(&mut ledger, 1, 2, 10), Err(LedgerError::NotFound));
    assert_eq!(get_balance(&ledger, 1), Ok(500));
    assert_eq!(get_balance(&ledger, 2), Err(LedgerError::NotFound));
}

#[test]
fn transfer_to_oneself_changes_nothing() {
    let mut ledger = MMap::new();
    add_money(&mut ledger, 1, 500);
    assert_eq!(transfer(&mut ledger, 1, 1, 200), Ok(()));
    assert_eq!(get_balance(&ledger, 1), Ok(500));
    assert_eq!(transfer(&mut ledger, 1, 1, 501), Err(LedgerError::InsufficientFunds));
    assert_eq!(get_balance(&ledger, 1), Ok(500));
}

#[test]
fn trades_keep_the_sum_of_all_balances() {
    let mut ledger = MMap::new();
    add_money(&mut ledger, 1, 8891);
    add_money(&mut ledger, 2, 1000093);
    add_money(&mut ledger, 3, 0);
    let before = total(&ledger);
    assert_eq!(before, 1008984);
    let trades: [(i64, i64, i64); 7] = [
        (1, 2, 891),
        (2, 3, 500000),
        (3, 1, 600000),
        (3, 4, 1),
        (5, 1, 1),
        (2, 2, 17),
        (3, 1, 500000),
    ];
    let mut done = 0;
    for (from, to, amount) in trades {
        assert!(can_transfer(&ledger, from, to, amount));
        if transfer(&mut ledger, from, to, amount).is_ok() {
            done += 1;
        }
        assert_eq!(total(&ledger), before);
    }
    assert_eq!(done, 4);
    assert_eq!(get_balance(&ledger, 1), Ok(508000));
    assert_eq!(get_balance(&ledger, 2), Ok(500984));
    assert_eq!(get_balance(&ledger, 3), Ok(0));
}

#[test]
fn snapshot_copies_every_balance() {
    let mut ledger = MMap::new();
    add_money(&mut ledger, 1, 10);
    add_money(&mut ledger, 2, 20);
    let snapshot = ledger.get_all_balance();
    add_money(&mut ledger, 1, 5);
    assert_eq!(snapshot.len(), 2);
    assert_eq!(snapshot.get(&1), Some(&10));
    assert_eq!(snapshot.get(&2), Some(&20));
    assert_eq!(ledger.get_all_balance().get(&1), Some(&15));
}

#[test]
fn try_add_money_credits_what_fits() {
    let mut ledger = MMap::new();
    assert!(try_add_money(&mut ledger, 1, i64::MAX - 1));
    assert!(try_add_money(&mut ledger, 1, 1));
    assert_eq!(get_balance(&ledger, 1), Ok(i64::MAX));
    assert!(!try_add_money(&mut ledger, 1, 1));
    assert_eq!(get_balance(&ledger, 1), Ok(i64::MAX));
    assert!(try_add_money(&mut ledger, 1, -1));
    assert_eq!(get_balance(&ledger, 1), Ok(i64::MAX - 1));
    assert!(try_add_money(&mut ledger, 2, i64::MIN));
    assert!(!try_add_money(&mut ledger, 2, -1));
    assert_eq!(get_balance(&ledger, 2), Ok(i64::MIN));
}

#[test]
fn can_transfer_tells_what_transfer_accepts() {
    let mut ledger = MMap::new();
    add_money(&mut ledger, 1, 100);
    add_money(&mut ledger, 2, i64::MAX - 50);
    assert!(can_transfer(&ledger, 1, 2, 50));
    assert!(!can_transfer(&ledger, 1, 2, 51));
    assert!(!can_transfer(&ledger, 1, 2, 100));
    // More than the source holds: refused by the ledger, so nothing can overflow.
    assert!(can_transfer(&ledger, 1, 2, 101));
    assert!(can_transfer(&ledger, 1, 3, 10));
    assert!(can_transfer(&ledger, 3, 2, 10));
    assert!(can_transfer(&ledger, 2, 2, i64::MAX));
    assert!(!can_transfer(&ledger, 1, 2, 0));
    assert!(!can_transfer(&ledger, 1, 2, -5));
}

#[test]
fn ledger_errors_have_their_texts() {
    assert_eq!(LedgerError::NotFound.message(), "can not find the account");
    assert_eq!(LedgerError::InsufficientFunds.message(), "insufficient balance");
}
