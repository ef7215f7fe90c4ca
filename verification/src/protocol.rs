//! The transfer protocol as a step function. A storage adapter performs each
//! action inside one unit of work and hands back what happened; the protocol
//! decides what comes next. It never retries: the first failure closes it.

use crate::models::{debit_verdict, Account, AccountId, TransferError};
use crate::money::Money;
use crate::transfer::{
    can_settle, canonical_pair, credited, debited, lock_order, settle, settle_in_range,
    success_message, success_text, validate_self_transfer,
};
use vstd::prelude::*;

verus! {

/// What the adapter is asked to do next.
pub enum Action {
    /// Look the idempotency key up, under a lock that serialises with inserts.
    LookupKey,
    /// Read the account and hold its row lock until the unit of work ends.
    Lock(AccountId),
    /// Write the account's balance and raise its stored version.
    Persist(Account),
    /// Append the audit entry: sender, receiver, amount.
    AppendAudit(AccountId, AccountId, Money),
    /// Store the success status and message under the idempotency key.
    RecordKey,
    /// Commit the unit of work.
    Commit,
    /// Close the unit of work, rolling back what is uncommitted, and answer.
    Finish(Outcome),
}

/// How a transfer ended.
pub enum Outcome {
    /// The key was known: the stored response, nothing touched.
    Replayed(String),
    /// The transfer was applied and committed.
    Completed,
    /// The transfer failed and nothing was applied.
    Failed(TransferError),
}

/// What the adapter reports back.
pub enum Event {
    /// The unit of work is open.
    Opened,
    /// The key lookup returned: the stored response, if any.
    KeyLooked(Option<String>),
    /// The account was read and is locked.
    Locked(Account),
    /// The pending write, or the commit, went through.
    Written,
    /// The pending action failed.
    Failed(TransferError),
}

/// Where a transfer stands.
pub enum Stage {
    /// Waiting for the unit of work to open.
    Opening,
    /// Waiting for the key lookup.
    CheckingKey,
    /// Waiting for the lock on the smaller identifier.
    LockingLow,
    /// Holding the first account, waiting for the lock on the larger one.
    LockingHigh(Account),
    /// The sender is being written; the receiver comes next.
    WritingSender(Account),
    /// The receiver is being written.
    WritingReceiver,
    /// The audit entry is being appended.
    Auditing,
    /// The idempotency record is being stored.
    Recording,
    /// The commit is pending.
    Committing,
    /// The transfer has ended; the unit of work is closed.
    Closed,
}

/// One transfer request on its way through the protocol.
pub struct Protocol {
    pub from: AccountId,
    pub to: AccountId,
    pub amount: Money,
    pub stage: Stage,
}

impl Outcome {
    /// The answer as the caller sees it.
    pub fn into_result(self) -> (r: Result<String, TransferError>)
        ensures
            match self {
                Outcome::Replayed(body) => r == Ok::<String, TransferError>(body),
                Outcome::Completed => r is Ok && r->Ok_0@ == success_text(),
                Outcome::Failed(e) => r == Err::<String, TransferError>(e),
            },
    {
        match self {
            Outcome::Replayed(body) => Ok(body),
            Outcome::Completed => Ok(success_message()),
            Outcome::Failed(e) => Err(e),
        }
    }
}

impl Protocol {
    /// The sender and the receiver among the two locked accounts, the first
    /// of which belongs to the smaller identifier.
    pub open spec fn sender_and_receiver(self, low: Account, high: Account) -> (Account, Account) {
        if self.from == canonical_pair(self.from, self.to).0 {
            (low, high)
        } else {
            (high, low)
        }
    }

    /// Whether `step` accepts the event: where it is about to move the money,
    /// both new balances must be exactly representable.
    pub open spec fn accepts_spec(self, event: Event) -> bool {
        match (self.stage, event) {
            (Stage::LockingHigh(low), Event::Locked(high)) => settle_in_range(
                self.sender_and_receiver(low, high).0,
                self.sender_and_receiver(low, high).1,
                self.amount,
            ),
            _ => true,
        }
    }

    /// What `step` answers to each event at each stage.
    pub open spec fn follows(self, event: Event, next: Stage, action: Action) -> bool {
        match (self.stage, event) {
            (Stage::Closed, _) => next == Stage::Closed && action == Action::Finish(
                Outcome::Failed(TransferError::StorageUnavailable),
            ),
            (_, Event::Failed(e)) => next == Stage::Closed && action == Action::Finish(
                Outcome::Failed(e),
            ),
            (Stage::Opening, Event::Opened) => next == Stage::CheckingKey && action
                == Action::LookupKey,
            (Stage::CheckingKey, Event::KeyLooked(Some(body))) => next == Stage::Closed && action
                == Action::Finish(Outcome::Replayed(body)),
            (Stage::CheckingKey, Event::KeyLooked(None)) => next == Stage::LockingLow && action
                == Action::Lock(canonical_pair(self.from, self.to).0),
            (Stage::LockingLow, Event::Locked(low)) => if self.from != self.to {
                next == Stage::LockingHigh(low) && action == Action::Lock(
                    canonical_pair(self.from, self.to).1,
                )
            } else {
                match debit_verdict(low.balance@, self.amount@) {
                    Some(e) => next == Stage::Closed && action == Action::Finish(
                        Outcome::Failed(e),
                    ),
                    None => next == Stage::Auditing && action == Action::AppendAudit(
                        self.from,
                        self.to,
                        self.amount,
                    ),
                }
            },
            (Stage::LockingHigh(low), Event::Locked(high)) => {
                let sender = self.sender_and_receiver(low, high).0;
                let receiver = self.sender_and_receiver(low, high).1;
                match debit_verdict(sender.balance@, self.amount@) {
                    Some(e) => next == Stage::Closed && action == Action::Finish(
                        Outcome::Failed(e),
                    ),
                    None => (next matches Stage::WritingSender(r) && credited(
                        receiver,
                        r,
                        self.amount@,
                    )) && (action matches Action::Persist(s) && debited(sender, s, self.amount@)),
                }
            },
            (Stage::WritingSender(receiver), Event::Written) => next == Stage::WritingReceiver
                && action == Action::Persist(receiver),
            (Stage::WritingReceiver, Event::Written) => next == Stage::Auditing && action
                == Action::AppendAudit(self.from, self.to, self.amount),
            (Stage::Auditing, Event::Written) => next == Stage::Recording && action
                == Action::RecordKey,
            (Stage::Recording, Event::Written) => next == Stage::Committing && action
                == Action::Commit,
            (Stage::Committing, Event::Written) => next == Stage::Closed && action
                == Action::Finish(Outcome::Completed),
            _ => next == Stage::Closed && action == Action::Finish(
                Outcome::Failed(TransferError::StorageUnavailable),
            ),
        }
    }

    /// A transfer that waits for its unit of work to open.
    pub fn new(from: AccountId, to: AccountId, amount: Money) -> (r: Protocol)
        ensures
            r.from == from,
            r.to == to,
            r.amount == amount,
            r.stage == Stage::Opening,
    {
        Protocol { from, to, amount, stage: Stage::Opening }
    }

    /// Whether the transfer has ended.
    pub fn is_closed(&self) -> (r: bool)
        ensures
            r == (self.stage == Stage::Closed),
    {
        match self.stage {
            Stage::Closed => true,
            _ => false,
        }
    }

    /// Decides `accepts_spec`: whether `step` may be called with this event.
    pub fn accepts(&self, event: &Event) -> (r: bool)
        ensures
            r == self.accepts_spec(*event),
    {
        match (&self.stage, event) {
            (Stage::LockingHigh(low), Event::Locked(high)) => {
                let (first, _) = lock_order(self.from, self.to);
                if self.from.0 == first.0 {
                    can_settle(low, high, self.amount)
                } else {
                    can_settle(high, low, self.amount)
                }
            },
            _ => true,
        }
    }

    /// Takes the adapter's report and decides the next action. The request
    /// stays as it is; only the stage moves.
    pub fn step(self, event: Event) -> (r: (Protocol, Action))
        requires
            self.accepts_spec(event),
        ensures
            r.0.from == self.from,
            r.0.to == self.to,
            r.0.amount == self.amount,
            self.follows(event, r.0.stage, r.1),
    {
        let from = self.from;
        let to = self.to;
        let amount = self.amount;
        let (low_id, high_id) = lock_order(from, to);
        let (stage, action) = match (self.stage, event) {
            (Stage::Closed, _) => (
                Stage::Closed,
                Action::Finish(Outcome::Failed(TransferError::StorageUnavailable)),
            ),
            (_, Event::Failed(e)) => (Stage::Closed, Action::Finish(Outcome::Failed(e))),
            (Stage::Opening, Event::Opened) => (Stage::CheckingKey, Action::LookupKey),
            (Stage::CheckingKey, Event::KeyLooked(Some(body))) => (
                Stage::Closed,
                Action::Finish(Outcome::Replayed(body)),
            ),
            (Stage::CheckingKey, Event::KeyLooked(None)) => (Stage::LockingLow, Action::Lock(low_id)),
            (Stage::LockingLow, Event::Locked(low)) => {
                if from.0 != to.0 {
                    (Stage::LockingHigh(low), Action::Lock(high_id))
                } else {
                    match validate_self_transfer(&low, amount) {
                        Err(e) => (Stage::Closed, Action::Finish(Outcome::Failed(e))),
                        Ok(()) => (Stage::Auditing, Action::AppendAudit(from, to, amount)),
                    }
                }
            },
            (Stage::LockingHigh(low), Event::Locked(high)) => {
                let (sender, receiver) = if from.0 == low_id.0 {
                    (low, high)
                } else {
                    (high, low)
                };
                match settle(sender, receiver, amount) {
                    Err(e) => (Stage::Closed, Action::Finish(Outcome::Failed(e))),
                    Ok((debited, credited)) => (
                        Stage::WritingSender(credited),
                        Action::Persist(debited),
                    ),
                }
            },
            (Stage::WritingSender(receiver), Event::Written) => (
                Stage::WritingReceiver,
                Action::Persist(receiver),
            ),
            (Stage::WritingReceiver, Event::Written) => (
                Stage::Auditing,
                Action::AppendAudit(from, to, amount),
            ),
            (Stage::Auditing, Event::Written) => (Stage::Recording, Action::RecordKey),
            (Stage::Recording, Event::Written) => (Stage::Committing, Action::Commit),
            (Stage::Committing, Event::Written) => (
                Stage::Closed,
                Action::Finish(Outcome::Completed),
            ),
            _ => (
                Stage::Closed,
                Action::Finish(Outcome::Failed(TransferError::StorageUnavailable)),
            ),
        };
        (Protocol { from, to, amount, stage }, action)
    }
}

} // verus!
