//! What the request and storage adapters decide on plain values: rows become
//! accounts, row counts and missing rows become failures, and what storage
//! reports becomes an event of the protocol.

use crate::models::{Account, AccountId, TransferError};
use crate::money::Money;
use crate::protocol::Event;
use vstd::prelude::*;

verus! {

/// A transfer request as it arrives: two account identifiers and an amount.
#[derive(Debug, Clone, Copy)]
pub struct TransferRequest {
    pub from_account: u128,
    pub to_account: u128,
    pub amount: Money,
}

/// One row of the accounts table.
#[derive(Debug, Clone, Copy)]
pub struct AccountSqlRow {
    pub id: u128,
    pub balance: Money,
    pub version: i32,
}

impl AccountSqlRow {
    /// The account that the row stores.
    pub fn to_domain(self) -> (r: Account)
        ensures
            r.id == AccountId(self.id),
            r.balance == self.balance,
            r.version == self.version,
    {
        Account { id: AccountId(self.id), balance: self.balance, version: self.version }
    }
}

/// The text of the failure for a request without an idempotency key.
pub open spec fn missing_key_text() -> Seq<char> {
    "Missing header: X-Idempotency-Key"@
}

/// The idempotency key of a request: the header's value, which must be there
/// and must not be empty.
pub fn require_idempotency_key(header: Option<String>) -> (r: Result<String, String>)
    ensures
        match header {
            Some(key) => if key@.len() > 0 {
                r == Ok::<String, String>(key)
            } else {
                r is Err && r->Err_0@ == missing_key_text()
            },
            None => r is Err && r->Err_0@ == missing_key_text(),
        },
{
    match header {
        Some(key) => {
            if key.as_str().is_empty() {
                Err("Missing header: X-Idempotency-Key".to_owned())
            } else {
                Ok(key)
            }
        },
        None => Err("Missing header: X-Idempotency-Key".to_owned()),
    }
}

/// The account of a locking read: the row's account, or `AccountNotFound`
/// where the read found no row.
pub fn account_from_row(row: Option<AccountSqlRow>) -> (r: Result<Account, TransferError>)
    ensures
        match row {
            Some(found) => r matches Ok(a) && a.id == AccountId(found.id) && a.balance
                == found.balance && a.version == found.version,
            None => r == Err::<Account, TransferError>(TransferError::AccountNotFound),
        },
{
    match row {
        Some(found) => Ok(found.to_domain()),
        None => Err(TransferError::AccountNotFound),
    }
}

/// The result of an account update by the number of rows it touched: none
/// means the account has vanished, a `ConcurrencyConflict`.
pub fn update_outcome(rows_affected: u64) -> (r: Result<(), TransferError>)
    ensures
        r == if rows_affected == 0 {
            Err::<(), TransferError>(TransferError::ConcurrencyConflict)
        } else {
            Ok::<(), TransferError>(())
        },
{
    if rows_affected == 0 {
        Err(TransferError::ConcurrencyConflict)
    } else {
        Ok(())
    }
}

/// The event for a key lookup.
pub fn lookup_event(found: Result<Option<String>, TransferError>) -> (r: Event)
    ensures
        r == match found {
            Ok(body) => Event::KeyLooked(body),
            Err(e) => Event::Failed(e),
        },
{
    match found {
        Ok(body) => Event::KeyLooked(body),
        Err(e) => Event::Failed(e),
    }
}

/// The event for a locking read.
pub fn lock_event(read: Result<Account, TransferError>) -> (r: Event)
    ensures
        r == match read {
            Ok(account) => Event::Locked(account),
            Err(e) => Event::Failed(e),
        },
{
    match read {
        Ok(account) => Event::Locked(account),
        Err(e) => Event::Failed(e),
    }
}

/// The event for a write or a commit.
pub fn write_event(written: Result<(), TransferError>) -> (r: Event)
    ensures
        r == match written {
            Ok(()) => Event::Written,
            Err(e) => Event::Failed(e),
        },
{
    match written {
        Ok(()) => Event::Written,
        Err(e) => Event::Failed(e),
    }
}

} // verus!
