use bank_transfer::models::{Account, AccountId, TransferError};
use bank_transfer::money::Money;
use rust_decimal::Decimal;
use uuid::Uuid;

fn amount(units: i64) -> Money {
    let d = Decimal::new(units, 0);
    Money::new(d.mantissa(), d.scale()).unwrap()
}

fn decimal(m: Money) -> Decimal {
    Decimal::from_i128_with_scale(m.mantissa(), m.scale())
}

fn fresh_account(balance: i64) -> Account {
    Account {
        id: AccountId(Uuid::new_v4().as_u128()),
        balance: amount(balance),
        version: 1,
    }
}

#[test]
fn test_debit_success() {
    let mut account = fresh_account(100);
    assert!(account.can_debit(amount(50)));

    let result = account.debit(amount(50));

    assert!(result.is_ok());
    assert_eq!(decimal(account.balance), Decimal::new(50, 0));
}

#[test]
fn test_debit_insufficient_funds() {
    let mut account = fresh_account(100);
    assert!(account.can_debit(amount(150)));

    let result = account.debit(amount(150));

    assert!(result.is_err());
    assert_eq!(result.err().unwrap(), "Insufficient funds");
    assert_eq!(decimal(account.balance), Decimal::new(100, 0));
}

#[test]
fn test_credit_success() {
    let mut account = fresh_account(100);
    assert!(account.can_credit(amount(50)));

    let _ = account.credit(amount(50));
    assert_eq!(decimal(account.balance), Decimal::new(150, 0));
}

#[test]
fn test_negative_amount() {
    let mut account = fresh_account(100);
    assert!(account.can_credit(amount(-10)));

    let result = account.credit(amount(-10));
    assert!(result.is_err());
    assert_eq!(result.err().unwrap(), "Amount must be positive");
}

#[test]
fn debit_of_zero_is_invalid_and_keeps_the_balance() {
    let mut account = fresh_account(100);
    let result = account.debit(amount(0));
    assert_eq!(result.err().unwrap(), "Amount must be positive");
    assert_eq!(decimal(account.balance), Decimal::new(100, 0));
    assert_eq!(account.version, 1);
}

#[test]
fn debit_of_the_whole_balance_leaves_zero() {
    let mut account = fresh_account(100);
    assert!(account.debit(amount(100)).is_ok());
    assert_eq!(decimal(account.balance), Decimal::ZERO);
}

#[test]
fn withdraw_and_deposit_give_typed_failures() {
    let mut account = fresh_account(10);
    assert_eq!(account.withdraw(amount(11)), Err(TransferError::InsufficientFunds));
    assert_eq!(account.withdraw(amount(-1)), Err(TransferError::InvalidAmount));
    assert_eq!(account.deposit(amount(0)), Err(TransferError::InvalidAmount));
    assert_eq!(account.withdraw(amount(4)), Ok(()));
    assert_eq!(account.deposit(amount(1)), Ok(()));
    assert_eq!(decimal(account.balance), Decimal::new(7, 0));
}

#[test]
fn debit_keeps_cents_exact() {
    let mut account = fresh_account(1);
    let ten_cents = Money::new(10, 2).unwrap();
    assert!(account.can_debit(ten_cents));
    assert!(account.debit(ten_cents).is_ok());
    assert_eq!(decimal(account.balance), Decimal::new(90, 2));
    assert_eq!(account.balance.mantissa(), 90);
    assert_eq!(account.balance.scale(), 2);
}

#[test]
fn credit_beyond_the_largest_amount_is_out_of_range() {
    let largest = Money::new(79228162514264337593543950335, 0).unwrap();
    let account = Account { id: AccountId(7), balance: largest, version: 1 };
    assert!(!account.can_credit(amount(1)));
    assert!(account.can_debit(amount(1)));
    let tenth = Money::new(1, 1).unwrap();
    assert!(!account.can_debit(tenth));
}

#[test]
fn failure_messages_and_classes() {
    assert_eq!(TransferError::InvalidAmount.message(), "Amount must be positive");
    assert_eq!(TransferError::InsufficientFunds.message(), "Insufficient funds");
    assert_eq!(TransferError::AccountNotFound.message(), "Account not found");
    assert!(TransferError::InvalidAmount.is_client_error());
    assert!(TransferError::InsufficientFunds.is_client_error());
    assert!(TransferError::AccountNotFound.is_client_error());
    assert!(!TransferError::ConcurrencyConflict.is_client_error());
    assert!(!TransferError::DuplicateKey.is_client_error());
    assert!(!TransferError::StorageUnavailable.is_client_error());
    assert!(!TransferError::CommitFailed.is_client_error());
}
