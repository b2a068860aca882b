use payments_engine::account::{Account, Transaction};
use payments_engine::ledger::Ledger;

fn ev(kind: &str, client: u16, tx: u32, amount: Option<u64>) -> Transaction {
    Transaction { kind: kind.to_string(), client, tx, amount }
}

#[test]
fn test_deposit_transaction() {
    let mut ledger = Ledger::new();
    ledger.apply(&ev("deposit", 1, 1, Some(1_000_000)));

    let account = ledger.account(1).unwrap();
    assert_eq!(account.available, 1_000_000);
    assert_eq!(account.held, 0);
    assert_eq!(account.total, 1_000_000);
    assert_eq!(account.locked, false);
}

#[test]
fn test_withdrawal_transaction() {
    let mut account = Account::new();
    account.deposit(1_000_000);

    let success = account.withdrawal(500_000);
    assert!(success);

    assert_eq!(account.available, 500_000);
    assert_eq!(account.held, 0);
    assert_eq!(account.total, 500_000);
    assert_eq!(account.locked, false);
}

#[test]
fn test_dispute_transaction() {
    let mut ledger = Ledger::new();
    ledger.apply(&ev("deposit", 1, 1, Some(1_000_000)));
    ledger.apply(&ev("dispute", 1, 1, None));

    let (client, amount) = ledger.deposit_record(1).unwrap();
    assert_eq!(client, 1);
    assert_eq!(amount, 1_000_000);

    let account = ledger.account(1).unwrap();
    assert_eq!(account.available, 0);
    assert_eq!(account.held, 1_000_000);
    assert_eq!(account.total, 1_000_000);
    assert_eq!(account.locked, false);
}

#[test]
fn test_chargeback_transaction() {
    let mut ledger = Ledger::new();
    ledger.apply(&ev("deposit", 1, 1, Some(1_000_000)));
    ledger.apply(&ev("dispute", 1, 1, None));
    ledger.apply(&ev("chargeback", 1, 1, None));

    let account = ledger.account(1).unwrap();
    assert_eq!(account.available, 0);
    assert_eq!(account.held, 0);
    assert_eq!(account.total, 0);
    assert_eq!(account.locked, true);
}

#[test]
fn deposit_dispute_resolve_withdraw_scenario() {
    let mut ledger = Ledger::new();
    ledger.apply(&ev("deposit", 1, 1, Some(100_000)));
    ledger.apply(&ev("deposit", 1, 2, Some(50_000)));
    ledger.apply(&ev("dispute", 1, 1, None));
    ledger.apply(&ev("resolve", 1, 1, None));
    ledger.apply(&ev("withdrawal", 1, 3, Some(150_000)));

    let account = ledger.account(1).unwrap();
    assert_eq!(account.available, 0);
    assert_eq!(account.held, 0);
    assert_eq!(account.total, 0);
    assert_eq!(account.locked, false);
}

#[test]
fn chargeback_locks_out_later_deposit_scenario() {
    let mut ledger = Ledger::new();
    ledger.apply(&ev("deposit", 2, 10, Some(200_000)));
    ledger.apply(&ev("dispute", 2, 10, None));
    ledger.apply(&ev("chargeback", 2, 10, None));
    ledger.apply(&ev("deposit", 2, 11, Some(50_000)));

    let account = ledger.account(2).unwrap();
    assert_eq!(account.available, 0);
    assert_eq!(account.held, 0);
    assert_eq!(account.total, 0);
    assert_eq!(account.locked, true);
}

#[test]
fn deposit_then_dispute_moves_amount_to_held() {
    let mut ledger = Ledger::new();
    ledger.apply(&ev("deposit", 7, 40, Some(123_456)));
    ledger.apply(&ev("dispute", 7, 40, None));

    let account = ledger.account(7).unwrap();
    assert_eq!(account.available, 0);
    assert_eq!(account.held, 123_456);
    assert_eq!(account.total, 123_456);
}

#[test]
fn dispute_then_resolve_round_trip() {
    let mut ledger = Ledger::new();
    ledger.apply(&ev("deposit", 3, 20, Some(700_000)));
    ledger.apply(&ev("withdrawal", 3, 21, Some(100_000)));
    let before = ledger.account(3).unwrap();

    ledger.apply(&ev("dispute", 3, 20, None));
    ledger.apply(&ev("resolve", 3, 20, None));

    let after = ledger.account(3).unwrap();
    assert_eq!(after.available, before.available);
    assert_eq!(after.held, before.held);
    assert_eq!(after.total, before.total);
    assert_eq!(after.locked, false);
    assert!(ledger.deposit_record(20).is_none());
}

#[test]
fn overdrawn_withdrawal_is_a_noop() {
    let mut ledger = Ledger::new();
    ledger.apply(&ev("deposit", 4, 30, Some(250_000)));
    ledger.apply(&ev("withdrawal", 4, 31, Some(250_001)));

    let account = ledger.account(4).unwrap();
    assert_eq!(account.available, 250_000);
    assert_eq!(account.held, 0);
    assert_eq!(account.total, 250_000);
    assert_eq!(account.locked, false);
}

#[test]
fn dispute_for_another_clients_tx_is_a_noop() {
    let mut ledger = Ledger::new();
    ledger.apply(&ev("deposit", 1, 1, Some(1_000_000)));
    ledger.apply(&ev("dispute", 2, 1, None));

    let owner = ledger.account(1).unwrap();
    assert_eq!(owner.available, 1_000_000);
    assert_eq!(owner.held, 0);
    assert_eq!(owner.total, 1_000_000);

    let other = ledger.account(2).unwrap();
    assert_eq!(other.available, 0);
    assert_eq!(other.held, 0);
    assert_eq!(other.total, 0);
    assert_eq!(other.locked, false);
}

#[test]
fn dispute_of_unknown_tx_is_a_noop() {
    let mut ledger = Ledger::new();
    ledger.apply(&ev("deposit", 5, 50, Some(10_000)));
    ledger.apply(&ev("dispute", 5, 99, None));
    ledger.apply(&ev("resolve", 5, 99, None));
    ledger.apply(&ev("chargeback", 5, 99, None));

    let account = ledger.account(5).unwrap();
    assert_eq!(account.available, 10_000);
    assert_eq!(account.held, 0);
    assert_eq!(account.total, 10_000);
    assert_eq!(account.locked, false);
}

#[test]
fn deposit_without_amount_is_a_noop_but_creates_the_account() {
    let mut ledger = Ledger::new();
    ledger.apply(&ev("deposit", 6, 60, None));

    let account = ledger.account(6).unwrap();
    assert_eq!(account.available, 0);
    assert_eq!(account.total, 0);
    assert!(ledger.deposit_record(60).is_none());
}

#[test]
fn unknown_event_kind_is_a_noop() {
    let mut ledger = Ledger::new();
    ledger.apply(&ev("deposit", 8, 70, Some(5_000)));
    ledger.apply(&ev("transfer", 8, 71, Some(5_000)));

    let account = ledger.account(8).unwrap();
    assert_eq!(account.available, 5_000);
    assert_eq!(account.total, 5_000);
}

#[test]
fn resolve_without_prior_dispute_still_moves_funds() {
    let mut ledger = Ledger::new();
    ledger.apply(&ev("deposit", 9, 80, Some(1_000_000)));
    ledger.apply(&ev("resolve", 9, 80, None));

    let account = ledger.account(9).unwrap();
    assert_eq!(account.available, 2_000_000);
    assert_eq!(account.held, -1_000_000);
    assert_eq!(account.total, 1_000_000);
    assert!(ledger.deposit_record(80).is_none());
}

#[test]
fn second_deposit_with_same_tx_overwrites_the_record() {
    let mut ledger = Ledger::new();
    ledger.apply(&ev("deposit", 1, 5, Some(100_000)));
    ledger.apply(&ev("deposit", 2, 5, Some(30_000)));

    let (client, amount) = ledger.deposit_record(5).unwrap();
    assert_eq!(client, 2);
    assert_eq!(amount, 30_000);
}

#[test]
fn client_ids_come_in_first_seen_order_without_duplicates() {
    let mut ledger = Ledger::new();
    ledger.apply(&ev("deposit", 30, 1, Some(1)));
    ledger.apply(&ev("deposit", 10, 2, Some(1)));
    ledger.apply(&ev("deposit", 30, 3, Some(1)));
    ledger.apply(&ev("deposit", 20, 4, Some(1)));

    assert_eq!(ledger.client_ids().clone(), vec![30, 10, 20]);
}

#[test]
fn total_is_available_plus_held_throughout() {
    let mut ledger = Ledger::new();
    let events = vec![
        ev("deposit", 1, 1, Some(400_000)),
        ev("deposit", 1, 2, Some(100_000)),
        ev("withdrawal", 1, 3, Some(50_000)),
        ev("dispute", 1, 1, None),
        ev("resolve", 1, 1, None),
        ev("dispute", 1, 2, None),
        ev("chargeback", 1, 2, None),
        ev("deposit", 1, 4, Some(1)),
    ];
    for e in &events {
        ledger.apply(e);
        let account = ledger.account(1).unwrap();
        assert_eq!(account.total, account.available + account.held);
    }
}
