use bank_transfer::adapter::{
    account_from_row, lock_event, lookup_event, require_idempotency_key, update_outcome,
    write_event, AccountSqlRow,
};
use bank_transfer::models::{Account, AccountId, TransferError};
use bank_transfer::money::Money;
use bank_transfer::protocol::{Action, Event, Outcome, Protocol, Stage};
use bank_transfer::transfer::{
    can_settle, lock_order, settle, success_message, validate_self_transfer, SUCCESS_STATUS,
};
use uuid::Uuid;

fn units(n: i128) -> Money {
    Money::new(n, 0).unwrap()
}

fn account(id: u128, balance: i128) -> Account {
    Account { id: AccountId(id), balance: units(balance), version: 1 }
}

fn advance(protocol: Protocol, event: Event) -> (Protocol, Action) {
    assert!(protocol.accepts(&event));
    protocol.step(event)
}

#[test]
fn lock_order_puts_the_smaller_identifier_first() {
    let a = AccountId(3);
    let b = AccountId(9);
    assert_eq!(lock_order(a, b), (a, b));
    assert_eq!(lock_order(b, a), (a, b));
    assert_eq!(lock_order(a, a), (a, a));
}

#[test]
fn lock_order_is_the_order_of_the_uuids() {
    let x = Uuid::new_v4();
    let y = Uuid::new_v4();
    let (low, high) = lock_order(AccountId(x.as_u128()), AccountId(y.as_u128()));
    let (first, second) = if x < y { (x, y) } else { (y, x) };
    assert_eq!(low, AccountId(first.as_u128()));
    assert_eq!(high, AccountId(second.as_u128()));
    let top_byte = AccountId(1u128 << 120);
    let low_bytes = AccountId((1u128 << 120) - 1);
    assert_eq!(lock_order(top_byte, low_bytes), (low_bytes, top_byte));
}

#[test]
fn settle_moves_the_amount() {
    let sender = account(1, 100);
    let receiver = account(2, 5);
    assert!(can_settle(&sender, &receiver, units(40)));
    let (s, r) = settle(sender, receiver, units(40)).unwrap();
    assert_eq!((s.id, s.balance.mantissa(), s.version), (AccountId(1), 60, 1));
    assert_eq!((r.id, r.balance.mantissa(), r.version), (AccountId(2), 45, 1));
    assert_eq!(settle(sender, receiver, units(101)).err(), Some(TransferError::InsufficientFunds));
    assert_eq!(settle(sender, receiver, units(0)).err(), Some(TransferError::InvalidAmount));
    assert_eq!(validate_self_transfer(&sender, units(100)), Ok(()));
    assert_eq!(validate_self_transfer(&sender, units(101)), Err(TransferError::InsufficientFunds));
}

#[test]
fn protocol_walks_a_transfer_to_its_commit() {
    let from = AccountId(9);
    let to = AccountId(3);
    let p = Protocol::new(from, to, units(25));
    let (p, action) = advance(p, Event::Opened);
    assert!(matches!(action, Action::LookupKey));
    let (p, action) = advance(p, Event::KeyLooked(None));
    assert!(matches!(action, Action::Lock(id) if id == to));
    let (p, action) = advance(p, Event::Locked(account(3, 0)));
    assert!(matches!(action, Action::Lock(id) if id == from));
    let (p, action) = advance(p, Event::Locked(account(9, 100)));
    match action {
        Action::Persist(sender) => {
            assert_eq!(sender.id, from);
            assert_eq!(sender.balance.mantissa(), 75);
        }
        _ => panic!("the sender is written first"),
    }
    let (p, action) = advance(p, Event::Written);
    match action {
        Action::Persist(receiver) => {
            assert_eq!(receiver.id, to);
            assert_eq!(receiver.balance.mantissa(), 25);
        }
        _ => panic!("the receiver is written second"),
    }
    let (p, action) = advance(p, Event::Written);
    match action {
        Action::AppendAudit(f, t, amount) => {
            assert_eq!((f, t, amount.mantissa()), (from, to, 25));
        }
        _ => panic!("the audit entry follows the writes"),
    }
    let (p, action) = advance(p, Event::Written);
    assert!(matches!(action, Action::RecordKey));
    let (p, action) = advance(p, Event::Written);
    assert!(matches!(action, Action::Commit));
    assert!(!p.is_closed());
    let (p, action) = advance(p, Event::Written);
    assert!(p.is_closed());
    match action {
        Action::Finish(outcome) => {
            assert_eq!(outcome.into_result(), Ok("Transfer Successful".to_string()));
        }
        _ => panic!("the transfer ends after the commit"),
    }
    assert_eq!(SUCCESS_STATUS, 200);
    assert_eq!(success_message(), "Transfer Successful");
}

#[test]
fn protocol_replays_a_known_key_without_locking() {
    let p = Protocol::new(AccountId(1), AccountId(2), units(5));
    let (p, _) = advance(p, Event::Opened);
    let (p, action) = advance(p, Event::KeyLooked(Some("stored".to_string())));
    assert!(p.is_closed());
    match action {
        Action::Finish(Outcome::Replayed(body)) => assert_eq!(body, "stored"),
        _ => panic!("a known key is replayed"),
    }
}

#[test]
fn protocol_stops_before_any_write_on_insufficient_funds() {
    let p = Protocol::new(AccountId(1), AccountId(2), units(500));
    let (p, _) = advance(p, Event::Opened);
    let (p, _) = advance(p, Event::KeyLooked(None));
    let (p, _) = advance(p, Event::Locked(account(1, 100)));
    let (p, action) = advance(p, Event::Locked(account(2, 0)));
    assert!(p.is_closed());
    assert!(matches!(
        action,
        Action::Finish(Outcome::Failed(TransferError::InsufficientFunds))
    ));
    let (p, action) = advance(p, Event::Written);
    assert!(matches!(p.stage, Stage::Closed));
    assert!(matches!(
        action,
        Action::Finish(Outcome::Failed(TransferError::StorageUnavailable))
    ));
}

#[test]
fn protocol_closes_on_the_first_failure() {
    let failures = vec![
        TransferError::StorageUnavailable,
        TransferError::AccountNotFound,
        TransferError::ConcurrencyConflict,
        TransferError::DuplicateKey,
        TransferError::CommitFailed,
    ];
    for failure in failures {
        let p = Protocol::new(AccountId(1), AccountId(2), units(5));
        let (p, _) = advance(p, Event::Opened);
        let (p, action) = advance(p, Event::Failed(failure));
        assert!(p.is_closed());
        match action {
            Action::Finish(outcome) => assert_eq!(outcome.into_result(), Err(failure)),
            _ => panic!("a failure ends the transfer"),
        }
    }
}

#[test]
fn protocol_commit_failure_is_reported_as_not_applied() {
    let p = Protocol::new(AccountId(1), AccountId(1), units(5));
    let (p, _) = advance(p, Event::Opened);
    let (p, _) = advance(p, Event::KeyLooked(None));
    let (p, action) = advance(p, Event::Locked(account(1, 100)));
    assert!(matches!(action, Action::AppendAudit(_, _, _)));
    let (p, _) = advance(p, Event::Written);
    let (p, action) = advance(p, Event::Written);
    assert!(matches!(action, Action::Commit));
    let (p, action) = advance(p, Event::Failed(TransferError::CommitFailed));
    assert!(p.is_closed());
    assert!(matches!(action, Action::Finish(Outcome::Failed(TransferError::CommitFailed))));
}

#[test]
fn protocol_rejects_an_event_out_of_turn() {
    let p = Protocol::new(AccountId(1), AccountId(2), units(5));
    let (p, action) = advance(p, Event::Written);
    assert!(p.is_closed());
    assert!(matches!(
        action,
        Action::Finish(Outcome::Failed(TransferError::StorageUnavailable))
    ));
}

#[test]
fn rows_and_row_counts_become_accounts_and_failures() {
    let row = AccountSqlRow { id: 77, balance: units(12), version: 4 };
    let domain = row.to_domain();
    assert_eq!((domain.id, domain.balance.mantissa(), domain.version), (AccountId(77), 12, 4));
    assert_eq!(account_from_row(Some(row)).unwrap().id, AccountId(77));
    assert_eq!(account_from_row(None).err(), Some(TransferError::AccountNotFound));
    assert_eq!(update_outcome(0), Err(TransferError::ConcurrencyConflict));
    assert_eq!(update_outcome(1), Ok(()));
    assert!(matches!(lookup_event(Ok(None)), Event::KeyLooked(None)));
    assert!(matches!(
        lookup_event(Err(TransferError::StorageUnavailable)),
        Event::Failed(TransferError::StorageUnavailable)
    ));
    assert!(matches!(lock_event(Ok(domain)), Event::Locked(a) if a.id == AccountId(77)));
    assert!(matches!(
        lock_event(Err(TransferError::AccountNotFound)),
        Event::Failed(TransferError::AccountNotFound)
    ));
    assert!(matches!(write_event(Ok(())), Event::Written));
    assert!(matches!(
        write_event(Err(TransferError::DuplicateKey)),
        Event::Failed(TransferError::DuplicateKey)
    ));
}

#[test]
fn a_request_needs_its_idempotency_key() {
    assert_eq!(require_idempotency_key(Some("k1".to_string())), Ok("k1".to_string()));
    assert_eq!(
        require_idempotency_key(None),
        Err("Missing header: X-Idempotency-Key".to_string())
    );
    assert_eq!(
        require_idempotency_key(Some(String::new())),
        Err("Missing header: X-Idempotency-Key".to_string())
    );
}

#[test]
fn a_duplicate_key_at_the_record_step_fails_the_transfer() {
    let p = Protocol::new(AccountId(1), AccountId(2), units(5));
    let (p, _) = advance(p, Event::Opened);
    let (p, _) = advance(p, Event::KeyLooked(None));
    let (p, _) = advance(p, Event::Locked(account(1, 100)));
    let (p, _) = advance(p, Event::Locked(account(2, 0)));
    let (p, _) = advance(p, Event::Written);
    let (p, _) = advance(p, Event::Written);
    let (p, action) = advance(p, Event::Written);
    assert!(matches!(action, Action::RecordKey));
    let (p, action) = advance(p, Event::Failed(TransferError::DuplicateKey));
    assert!(p.is_closed());
    match action {
        Action::Finish(outcome) => {
            assert_eq!(outcome.into_result(), Err(TransferError::DuplicateKey));
        }
        _ => panic!("nothing is committed after a duplicate key"),
    }
}
