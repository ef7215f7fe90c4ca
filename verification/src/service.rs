//! The transfer service: runs the protocol, step by step, against the
//! ledger, inside one unit of work.

use crate::ledger::{Ledger, UnitOfWork};
use crate::models::{AccountId, TransferError};
use crate::money::Money;
use crate::protocol::{Action, Event, Protocol, Stage};
use crate::transfer::{canonical_pair, credited};
use vstd::prelude::*;

verus! {

/// The order of the stages: each step moves to a lower rank.
pub open spec fn stage_rank(stage: Stage) -> nat {
    match stage {
        Stage::Opening => 9,
        Stage::CheckingKey => 8,
        Stage::LockingLow => 7,
        Stage::LockingHigh(_) => 6,
        Stage::WritingSender(_) => 5,
        Stage::WritingReceiver => 4,
        Stage::Auditing => 3,
        Stage::Recording => 2,
        Stage::Committing => 1,
        Stage::Closed => 0,
    }
}

/// Whether a unit of work is where the protocol says it is. Until the
/// commit the ledger is untouched and the writes wait in the unit of
/// work; after it, the ledger holds the applied transfer.
pub open spec fn on_track(
    pre: Ledger,
    key: Seq<char>,
    protocol: Protocol,
    event: Event,
    work: UnitOfWork,
    now: Ledger,
) -> bool {
    let from = protocol.from;
    let to = protocol.to;
    let amount = protocol.amount;
    let low = canonical_pair(from, to).0;
    let high = canonical_pair(from, to).1;
    let fresh = pre.response(key).is_none();
    match (protocol.stage, event) {
        (Stage::Opening, Event::Opened) => now == pre && work.is_empty(),
        (Stage::CheckingKey, Event::KeyLooked(found)) => now == pre && work.is_empty()
            && match found {
            Some(body) => pre.response(key) == Some(body@),
            None => fresh,
        },
        (Stage::LockingLow, Event::Locked(a)) => now == pre && work.is_empty() && fresh
            && pre.account(low) == Some(a),
        (Stage::LockingLow, Event::Failed(e)) => now == pre && fresh && pre.account(
            low,
        ).is_none() && e == TransferError::AccountNotFound,
        (Stage::LockingHigh(l), Event::Locked(h)) => now == pre && work.is_empty() && fresh
            && from != to && pre.account(low) == Some(l) && pre.account(high) == Some(h),
        (Stage::LockingHigh(l), Event::Failed(e)) => now == pre && fresh && from != to
            && pre.account(high).is_none() && e == TransferError::AccountNotFound,
        (Stage::WritingSender(r), Event::Written) => now == pre && pre.moves_money(
            key,
            from,
            to,
            amount,
        ) && work.holds(pre, from, to, amount, 1) && credited(
            pre.account(to).unwrap(),
            r,
            amount@,
        ),
        (Stage::WritingReceiver, Event::Written) => now == pre && pre.moves_money(
            key,
            from,
            to,
            amount,
        ) && work.holds(pre, from, to, amount, 2),
        (Stage::Auditing, Event::Written) => now == pre && fresh && pre.verdict(
            from,
            to,
            amount,
        ).is_none() && work.holds(pre, from, to, amount, 3),
        (Stage::Recording, Event::Written) => now == pre && fresh && pre.verdict(
            from,
            to,
            amount,
        ).is_none() && work.holds(pre, from, to, amount, 4),
        (Stage::Committing, Event::Written) => fresh && pre.verdict(from, to, amount).is_none()
            && pre.applied(key, from, to, amount, now),
        _ => false,
    }
}

/// The transfer use case over a ledger.
pub struct TransferUseCase {
    repo: Ledger,
}

impl TransferUseCase {
    /// The ledger that the service works on.
    pub closed spec fn ledger(self) -> Ledger {
        self.repo
    }

    /// A service over the given ledger.
    pub fn new(repo: Ledger) -> (r: TransferUseCase)
        ensures
            r.ledger() == repo,
    {
        TransferUseCase { repo }
    }

    /// The ledger as it stands.
    pub fn repo(&self) -> (r: &Ledger)
        ensures
            *r == self.ledger(),
    {
        &self.repo
    }

    /// Runs one transfer as a unit of work: performs what the protocol asks
    /// for, step by step, and reports back. A key that is already stored
    /// replays its response. Otherwise the two accounts are read in canonical
    /// order, the amount is validated and moved, and the writes (both
    /// accounts with their versions raised, the audit entry, the response
    /// under the key) wait in the unit of work until the commit applies them
    /// together. Any failure leaves the ledger exactly as it was.
    pub fn execute(
        &mut self,
        idempotency_key: String,
        from: AccountId,
        to: AccountId,
        amount: Money,
    ) -> (r: Result<String, TransferError>)
        requires
            old(self).ledger().wf(),
            old(self).ledger().in_range(idempotency_key@, from, to, amount),
        ensures
            final(self).ledger().wf(),
            old(self).ledger().outcome(
                idempotency_key@,
                from,
                to,
                amount,
                final(self).ledger(),
                r,
            ),
    {
        let ghost pre = self.repo;
        let mut protocol = Protocol::new(from, to, amount);
        let mut event = Event::Opened;
        let mut work = UnitOfWork::new();
        loop
            invariant
                pre == old(self).repo,
                pre.wf(),
                pre.in_range(idempotency_key@, from, to, amount),
                protocol.from == from,
                protocol.to == to,
                protocol.amount == amount,
                on_track(pre, idempotency_key@, protocol, event, work, self.repo),
                protocol.stage == Stage::Committing ==> self.repo.wf(),
                protocol.stage != Stage::Committing ==> self.repo == pre,
            decreases stage_rank(protocol.stage),
        {
            proof {
                pre.lemma_balances_not_negative(from);
                pre.lemma_balances_not_negative(to);
            }
            let (next, action) = protocol.step(event);
            protocol = next;
            match action {
                Action::LookupKey => {
                    event = Event::KeyLooked(self.repo.lookup_response(&idempotency_key));
                },
                Action::Lock(id) => {
                    event = match self.repo.find(id) {
                        Some(account) => Event::Locked(account),
                        None => Event::Failed(TransferError::AccountNotFound),
                    };
                },
                Action::Persist(account) => {
                    if work.sender.is_none() {
                        work.sender = Some(account);
                    } else {
                        work.receiver = Some(account);
                    }
                    event = Event::Written;
                },
                Action::AppendAudit(sender, receiver, moved) => {
                    work.audit = Some((sender, receiver, moved));
                    event = Event::Written;
                },
                Action::RecordKey => {
                    work.record = true;
                    event = Event::Written;
                },
                Action::Commit => {
                    self.repo.commit(idempotency_key.clone(), &work);
                    event = Event::Written;
                },
                Action::Finish(outcome) => {
                    return outcome.into_result();
                },
            }
        }
    }

}

} // verus!
