use ledger::amount::Amount;
use ledger::ledger::{AccountManager, ClientAccount, Transaction, TxKind};

fn record(kind: TxKind, client: u16, tx: u32, amount: Option<Amount>) -> Transaction {
    Transaction { kind, client, tx, amount, is_disputed: false }
}

fn check_account(m: &AccountManager, client: u16, available: i64, held: i64, total: i64, locked: bool) {
    let maybe_account = m.account(client);
    assert!(maybe_account.is_some());
    let account: ClientAccount = maybe_account.unwrap();
    assert_eq!(account.available, Amount::new(available, 0));
    assert_eq!(account.client, client);
    assert_eq!(account.held, Amount::new(held, 0));
    assert_eq!(account.locked, locked);
    assert_eq!(account.total, Amount::new(total, 0));
}

#[test]
fn deposit_new_account() {
    let mut acc_man = AccountManager::new();
    let client_id = 1u16;
    let tx = record(TxKind::Deposit, client_id, 1u32, Some(Amount::new(1, 0)));
    let result = acc_man.process_tx(&tx);
    assert!(result.is_ok());
    check_account(&acc_man, client_id, 1, 0, 1, false);
}

#[test]
fn deposit_duplicate_tx() {
    let mut acc_man = AccountManager::new();
    let client_id = 1u16;
    let tx1 = record(TxKind::Deposit, client_id, 1u32, Some(Amount::new(1, 0)));
    assert!(acc_man.process_tx(&tx1).is_ok());
    let tx2 = record(TxKind::Deposit, client_id, 1u32, Some(Amount::new(1, 0)));
    assert!(acc_man.process_tx(&tx2).is_err());
    check_account(&acc_man, client_id, 1, 0, 1, false);
}

#[test]
fn deposit_multiple_tx() {
    let mut acc_man = AccountManager::new();
    let client_id = 1u16;
    let tx1 = record(TxKind::Deposit, client_id, 1u32, Some(Amount::new(1, 0)));
    assert!(acc_man.process_tx(&tx1).is_ok());
    let tx2 = record(TxKind::Deposit, client_id, 2u32, Some(Amount::new(1, 0)));
    assert!(acc_man.process_tx(&tx2).is_ok());
    check_account(&acc_man, client_id, 2, 0, 2, false);
}

#[test]
fn withdraw_new_account() {
    let mut acc_man = AccountManager::new();
    let client_id = 1u16;
    let tx = record(TxKind::Withdraw, client_id, 1u32, Some(Amount::new(1, 0)));
    let result = acc_man.process_tx(&tx);
    assert!(result.is_ok());
    check_account(&acc_man, client_id, -1, 0, -1, false);
}

#[test]
fn withdraw_duplicate_tx() {
    let mut acc_man = AccountManager::new();
    let client_id = 1u16;
    let tx1 = record(TxKind::Withdraw, client_id, 1u32, Some(Amount::new(1, 0)));
    assert!(acc_man.process_tx(&tx1).is_ok());
    let tx2 = record(TxKind::Withdraw, client_id, 1u32, Some(Amount::new(1, 0)));
    assert!(acc_man.process_tx(&tx2).is_err());
    check_account(&acc_man, client_id, -1, 0, -1, false);
}

#[test]
fn withdraw_multiple_tx() {
    let mut acc_man = AccountManager::new();
    let client_id = 1u16;
    let tx1 = record(TxKind::Withdraw, client_id, 1u32, Some(Amount::new(1, 0)));
    assert!(acc_man.process_tx(&tx1).is_ok());
    let tx2 = record(TxKind::Withdraw, client_id, 2u32, Some(Amount::new(1, 0)));
    assert!(acc_man.process_tx(&tx2).is_ok());
    check_account(&acc_man, client_id, -2, 0, -2, false);
}

#[test]
fn dispute_a_deposit_tx() {
    let mut acc_man = AccountManager::new();
    let client_id = 1u16;
    let tx1 = record(TxKind::Deposit, client_id, 1u32, Some(Amount::new(5, 0)));
    assert!(acc_man.process_tx(&tx1).is_ok());
    let tx2 = record(TxKind::Dispute, client_id, 1u32, None);
    assert!(acc_man.process_tx(&tx2).is_ok());
    check_account(&acc_man, client_id, 0, 5, 5, false);
    match acc_man.transaction(1u32) {
        Some(t) => assert_eq!(t.is_disputed, true),
        None => assert!(false),
    };
}

#[test]
fn dispute_a_withdraw_tx() {
    let mut acc_man = AccountManager::new();
    let client_id = 1u16;
    let tx1 = record(TxKind::Withdraw, client_id, 1u32, Some(Amount::new(9, 0)));
    assert!(acc_man.process_tx(&tx1).is_ok());
    let tx2 = record(TxKind::Dispute, client_id, 1u32, None);
    assert!(acc_man.process_tx(&tx2).is_err());
    check_account(&acc_man, client_id, -9, 0, -9, false);
    match acc_man.transaction(1u32) {
        Some(t) => assert_eq!(t.is_disputed, false),
        None => assert!(false),
    };
}

#[test]
fn resolve_a_dispute_tx() {
    let mut acc_man = AccountManager::new();
    let client_id = 1u16;
    let tx1 = record(TxKind::Deposit, client_id, 1u32, Some(Amount::new(9, 0)));
    assert!(acc_man.process_tx(&tx1).is_ok());
    let tx2 = record(TxKind::Dispute, client_id, 1u32, None);
    assert!(acc_man.process_tx(&tx2).is_ok());
    let tx3 = record(TxKind::Resolve, client_id, 1u32, None);
    assert!(acc_man.process_tx(&tx3).is_ok());
    check_account(&acc_man, client_id, 9, 0, 9, false);
    match acc_man.transaction(1u32) {
        Some(t) => assert_eq!(t.is_disputed, false),
        None => assert!(false),
    };
}

#[test]
fn resolve_a_non_dispute_tx() {
    let mut acc_man = AccountManager::new();
    let client_id = 1u16;
    let tx1 = record(TxKind::Deposit, client_id, 1u32, Some(Amount::new(9, 0)));
    assert!(acc_man.process_tx(&tx1).is_ok());
    let tx3 = record(TxKind::Resolve, client_id, 1u32, None);
    assert!(acc_man.process_tx(&tx3).is_err());
}

#[test]
fn chargeback_a_dispute_tx() {
    let mut acc_man = AccountManager::new();
    let client_id = 1u16;
    let tx1 = record(TxKind::Deposit, client_id, 1u32, Some(Amount::new(9, 0)));
    assert!(acc_man.process_tx(&tx1).is_ok());
    let tx2 = record(TxKind::Dispute, client_id, 1u32, None);
    assert!(acc_man.process_tx(&tx2).is_ok());
    let tx3 = record(TxKind::Chargeback, client_id, 1u32, None);
    assert!(acc_man.process_tx(&tx3).is_ok());
    check_account(&acc_man, client_id, 0, 0, 0, true);
    match acc_man.transaction(1u32) {
        Some(t) => assert_eq!(t.is_disputed, true),
        None => assert!(false),
    };
}

#[test]
fn chargeback_a_non_dispute_tx() {
    let mut acc_man = AccountManager::new();
    let client_id = 1u16;
    let tx1 = record(TxKind::Deposit, client_id, 1u32, Some(Amount::new(9, 0)));
    assert!(acc_man.process_tx(&tx1).is_ok());
    let tx3 = record(TxKind::Chargeback, client_id, 1u32, None);
    assert!(acc_man.process_tx(&tx3).is_err());
}

#[test]
fn chargeback_a_non_existent_tx() {
    let mut acc_man = AccountManager::new();
    let tx3 = record(TxKind::Chargeback, 1u16, 1u32, None);
    assert!(acc_man.process_tx(&tx3).is_err());
}

#[test]
fn resolve_a_non_existent_tx() {
    let mut acc_man = AccountManager::new();
    let tx3 = record(TxKind::Resolve, 1u16, 1u32, None);
    assert!(acc_man.process_tx(&tx3).is_err());
}

#[test]
fn dispute_a_non_existent_tx() {
    let mut acc_man = AccountManager::new();
    let tx3 = record(TxKind::Dispute, 1u16, 1u32, None);
    assert!(acc_man.process_tx(&tx3).is_err());
}
