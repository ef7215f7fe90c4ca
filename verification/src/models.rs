//! The account entity and the failures a transfer can end in.

use crate::money::Money;
use vstd::prelude::*;

verus! {

/// The identifier of an account: a 128-bit value, ordered as an unsigned
/// integer. A UUID maps to it by its big-endian reading, which keeps the
/// UUID's own byte order.
#[derive(Debug, Clone, Copy, PartialEq, Eq, Hash, Structural)]
pub struct AccountId(pub u128);

/// Why a transfer, or one step of it, failed.
#[derive(Debug, Clone, Copy, PartialEq, Eq, Structural)]
pub enum TransferError {
    /// The amount is zero or negative.
    InvalidAmount,
    /// The amount exceeds the sender's balance.
    InsufficientFunds,
    /// No account has the requested identifier.
    AccountNotFound,
    /// An account update touched no row.
    ConcurrencyConflict,
    /// The idempotency key was inserted by somebody else meanwhile.
    DuplicateKey,
    /// No unit of work could be opened or used.
    StorageUnavailable,
    /// The store rejected the commit; nothing was applied.
    CommitFailed,
}

/// The text of the amount-validation failure.
pub open spec fn invalid_amount_text() -> Seq<char> {
    "Amount must be positive"@
}

/// The text of the insufficient-funds failure.
pub open spec fn insufficient_funds_text() -> Seq<char> {
    "Insufficient funds"@
}

impl TransferError {
    /// The human-readable message of each failure.
    pub open spec fn spec_message(self) -> Seq<char> {
        match self {
            TransferError::InvalidAmount => invalid_amount_text(),
            TransferError::InsufficientFunds => insufficient_funds_text(),
            TransferError::AccountNotFound => "Account not found"@,
            TransferError::ConcurrencyConflict => "Failed to update account. Concurrency error or ID not found."@,
            TransferError::DuplicateKey => "Idempotency key already recorded"@,
            TransferError::StorageUnavailable => "Storage unavailable"@,
            TransferError::CommitFailed => "Commit failed"@,
        }
    }

    /// Whether the failure is the client's: a domain validation failure, as
    /// opposed to a storage failure that is safe to retry.
    pub open spec fn spec_is_client_error(self) -> bool {
        self == TransferError::InvalidAmount || self == TransferError::InsufficientFunds || self
            == TransferError::AccountNotFound
    }

    /// The human-readable message of this failure.
    pub fn message(&self) -> (r: String)
        ensures
            r@ == self.spec_message(),
    {
        match self {
            TransferError::InvalidAmount => "Amount must be positive".to_owned(),
            TransferError::InsufficientFunds => "Insufficient funds".to_owned(),
            TransferError::AccountNotFound => "Account not found".to_owned(),
            TransferError::ConcurrencyConflict => "Failed to update account. Concurrency error or ID not found.".to_owned(),
            TransferError::DuplicateKey => "Idempotency key already recorded".to_owned(),
            TransferError::StorageUnavailable => "Storage unavailable".to_owned(),
            TransferError::CommitFailed => "Commit failed".to_owned(),
        }
    }

    /// Whether the failure belongs to the client-error class.
    pub fn is_client_error(&self) -> (r: bool)
        ensures
            r == self.spec_is_client_error(),
    {
        match self {
            TransferError::InvalidAmount => true,
            TransferError::InsufficientFunds => true,
            TransferError::AccountNotFound => true,
            _ => false,
        }
    }
}

/// A balance-bearing account as one unit of work sees it.
#[derive(Debug, Clone, Copy)]
pub struct Account {
    pub id: AccountId,
    pub balance: Money,
    pub version: i32,
}

/// What a debit of `amount` from `balance` ends in.
pub open spec fn debit_verdict(balance: int, amount: int) -> Option<TransferError> {
    if amount <= 0 {
        Some(TransferError::InvalidAmount)
    } else if balance < amount {
        Some(TransferError::InsufficientFunds)
    } else {
        None
    }
}

/// What a credit of `amount` ends in.
pub open spec fn credit_verdict(amount: int) -> Option<TransferError> {
    if amount <= 0 {
        Some(TransferError::InvalidAmount)
    } else {
        None
    }
}

impl Account {
    /// Whether `withdraw` and `debit` accept the amount: where the debit goes
    /// through, the new balance must be exactly representable.
    pub open spec fn debit_in_range(self, amount: Money) -> bool {
        debit_verdict(self.balance@, amount@).is_none() ==> self.balance.can_sub(amount)
    }

    /// Whether `deposit` and `credit` accept the amount: where the credit goes
    /// through, the new balance must be exactly representable.
    pub open spec fn credit_in_range(self, amount: Money) -> bool {
        credit_verdict(amount@).is_none() ==> self.balance.can_add(amount)
    }

    /// Decides `debit_in_range`.
    pub fn can_debit(&self, amount: Money) -> (r: bool)
        ensures
            r == self.debit_in_range(amount),
    {
        !amount.is_positive() || self.balance.less_than(&amount) || self.balance.subtractable(
            &amount,
        )
    }

    /// Decides `credit_in_range`.
    pub fn can_credit(&self, amount: Money) -> (r: bool)
        ensures
            r == self.credit_in_range(amount),
    {
        !amount.is_positive() || self.balance.addable(&amount)
    }

    /// Takes `amount` out of the balance. Fails, and leaves the account as it
    /// was, where the amount is not positive or exceeds the balance.
    pub fn withdraw(&mut self, amount: Money) -> (r: Result<(), TransferError>)
        requires
            old(self).debit_in_range(amount),
        ensures
            r is Ok <==> debit_verdict(old(self).balance@, amount@).is_none(),
            r matches Err(e) ==> *final(self) == *old(self) && debit_verdict(
                old(self).balance@,
                amount@,
            ) == Some(e),
            r is Ok ==> final(self).balance@ == old(self).balance@ - amount@,
            final(self).id == old(self).id,
            final(self).version == old(self).version,
    {
        if !amount.is_positive() {
            return Err(TransferError::InvalidAmount);
        }
        if self.balance.less_than(&amount) {
            return Err(TransferError::InsufficientFunds);
        }
        self.balance = self.balance.minus(&amount);
        Ok(())
    }

    /// Adds `amount` to the balance. Fails, and leaves the account as it was,
    /// where the amount is not positive.
    pub fn deposit(&mut self, amount: Money) -> (r: Result<(), TransferError>)
        requires
            old(self).credit_in_range(amount),
        ensures
            r is Ok <==> credit_verdict(amount@).is_none(),
            r matches Err(e) ==> credit_verdict(amount@) == Some(e) && *final(self) == *old(self),
            r is Ok ==> final(self).balance@ == old(self).balance@ + amount@,
            final(self).id == old(self).id,
            final(self).version == old(self).version,
    {
        if !amount.is_positive() {
            return Err(TransferError::InvalidAmount);
        }
        self.balance = self.balance.plus(&amount);
        Ok(())
    }

    /// `withdraw`, with the failure given as its message.
    pub fn debit(&mut self, amount: Money) -> (r: Result<(), String>)
        requires
            old(self).debit_in_range(amount),
        ensures
            r is Ok <==> debit_verdict(old(self).balance@, amount@).is_none(),
            r matches Err(text) ==> *final(self) == *old(self) && debit_verdict(
                old(self).balance@,
                amount@,
            ).is_some() && text@ == debit_verdict(
                old(self).balance@,
                amount@,
            ).unwrap().spec_message(),
            r is Ok ==> final(self).balance@ == old(self).balance@ - amount@,
            final(self).id == old(self).id,
            final(self).version == old(self).version,
    {
        match self.withdraw(amount) {
            Ok(()) => Ok(()),
            Err(e) => Err(e.message()),
        }
    }

    /// `deposit`, with the failure given as its message.
    pub fn credit(&mut self, amount: Money) -> (r: Result<(), String>)
        requires
            old(self).credit_in_range(amount),
        ensures
            r is Ok <==> credit_verdict(amount@).is_none(),
            r matches Err(text) ==> *final(self) == *old(self) && text@
                == invalid_amount_text(),
            r is Ok ==> final(self).balance@ == old(self).balance@ + amount@,
            final(self).id == old(self).id,
            final(self).version == old(self).version,
    {
        match self.deposit(amount) {
            Ok(()) => Ok(()),
            Err(e) => Err(e.message()),
        }
    }
}

} // verus!
