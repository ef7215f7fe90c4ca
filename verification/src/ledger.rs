//! An in-memory ledger: accounts, idempotency records and the audit trail,
//! read through locking reads and written by committing a unit of work.

use crate::models::{debit_verdict, Account, AccountId, TransferError};
use crate::money::Money;
use crate::transfer::{
    can_settle, credited, debited, settle_in_range, success_message, success_text,
    SUCCESS_STATUS,
};
use std::collections::HashMap;
use vstd::prelude::*;

verus! {

broadcast use vstd::std_specs::hash::group_hash_axioms;

/// The stored outcome of a completed transfer, found again by its key.
#[derive(Debug)]
pub struct IdempotencyRecord {
    pub key: String,
    pub response_status: u16,
    pub response_body: String,
}

/// One line of the audit trail: a transfer that was applied. Its identifier
/// is its position in the trail.
#[derive(Debug, Clone, Copy)]
pub struct TransactionLogEntry {
    pub id: usize,
    pub from: AccountId,
    pub to: AccountId,
    pub amount: Money,
}

/// The response body stored under `key`, if any record has that key.
pub open spec fn stored_response(records: Seq<IdempotencyRecord>, key: Seq<char>) -> Option<
    Seq<char>,
>
    decreases records.len(),
{
    if records.len() == 0 {
        None
    } else if records.last().key@ == key {
        Some(records.last().response_body@)
    } else {
        stored_response(records.drop_last(), key)
    }
}

/// The response status stored under `key`, if any record has that key.
pub open spec fn stored_status(records: Seq<IdempotencyRecord>, key: Seq<char>) -> Option<u16>
    decreases records.len(),
{
    if records.len() == 0 {
        None
    } else if records.last().key@ == key {
        Some(records.last().response_status)
    } else {
        stored_status(records.drop_last(), key)
    }
}

/// Whether no two records share a key.
pub open spec fn distinct_keys(records: Seq<IdempotencyRecord>) -> bool {
    forall|i: int, j: int|
        0 <= i < j < records.len() ==> (#[trigger] records[i]).key@ != (#[trigger] records[j]).key@
}

/// A key without a stored response is the key of no record.
pub proof fn lemma_fresh_key_is_unused(records: Seq<IdempotencyRecord>, key: Seq<char>)
    requires
        stored_response(records, key).is_none(),
    ensures
        forall|i: int| 0 <= i < records.len() ==> (#[trigger] records[i]).key@ != key,
    decreases records.len(),
{
    if records.len() > 0 {
        lemma_fresh_key_is_unused(records.drop_last(), key);
        assert forall|i: int| 0 <= i < records.len() implies (#[trigger] records[i]).key@
            != key by {
            if i < records.len() - 1 {
                assert(records[i] == records.drop_last()[i]);
            }
        }
    }
}

/// Whether `after` is `before` as one successful update leaves it: the
/// balance moved by `delta`, the version one higher.
pub open spec fn updated(before: Account, after: Account, delta: int) -> bool {
    after.id == before.id && after.version == before.version + 1 && after.balance@
        == before.balance@ + delta
}

/// Accounts by identifier, idempotency records and the audit trail.
pub struct Ledger {
    accounts: HashMap<u128, Account>,
    records: Vec<IdempotencyRecord>,
    entries: Vec<TransactionLogEntry>,
}

impl Ledger {
    /// Every account is filed under its own identifier and has a balance of
    /// zero or more, and no two idempotency records share a key.
    pub closed spec fn wf(self) -> bool {
        &&& forall|k: u128| #[trigger]
            self.accounts@.contains_key(k) ==> self.accounts@[k].id == AccountId(k)
                && self.accounts@[k].balance@ >= 0
        &&& distinct_keys(self.records@)
    }

    /// The keys of the idempotency records, oldest first.
    pub closed spec fn keys(self) -> Seq<Seq<char>> {
        Seq::new(self.records@.len(), |i: int| self.records@[i].key@)
    }

    /// The account with the given identifier, if there is one.
    pub closed spec fn account(self, id: AccountId) -> Option<Account> {
        if self.accounts@.contains_key(id.0) {
            Some(self.accounts@[id.0])
        } else {
            None
        }
    }

    /// The response stored under an idempotency key, if there is one.
    pub closed spec fn response(self, key: Seq<char>) -> Option<Seq<char>> {
        stored_response(self.records@, key)
    }

    /// The response status stored under an idempotency key, if there is one.
    pub closed spec fn status(self, key: Seq<char>) -> Option<u16> {
        stored_status(self.records@, key)
    }

    /// The audit trail, oldest entry first.
    pub closed spec fn audit(self) -> Seq<TransactionLogEntry> {
        self.entries@
    }

    /// Why a transfer under a fresh key is refused, if it is: a missing
    /// account first, then the sender's debit validation.
    pub open spec fn verdict(self, from: AccountId, to: AccountId, amount: Money) -> Option<
        TransferError,
    > {
        if self.account(from).is_none() || self.account(to).is_none() {
            Some(TransferError::AccountNotFound)
        } else {
            debit_verdict(self.account(from).unwrap().balance@, amount@)
        }
    }

    /// Whether the transfer changes balances: its key is fresh, nothing
    /// refuses it, and sender and receiver differ.
    pub open spec fn moves_money(
        self,
        key: Seq<char>,
        from: AccountId,
        to: AccountId,
        amount: Money,
    ) -> bool {
        self.response(key).is_none() && self.verdict(from, to, amount).is_none() && from != to
    }

    /// Whether the transfer service accepts the request: where it changes
    /// balances, both
    /// new balances must be exactly representable and both versions must have
    /// a successor.
    pub open spec fn in_range(
        self,
        key: Seq<char>,
        from: AccountId,
        to: AccountId,
        amount: Money,
    ) -> bool {
        self.moves_money(key, from, to, amount) ==> settle_in_range(
            self.account(from).unwrap(),
            self.account(to).unwrap(),
            amount,
        ) && self.account(from).unwrap().version < i32::MAX && self.account(to).unwrap().version
            < i32::MAX
    }

    /// What an applied transfer leaves behind: the two balances moved and
    /// their versions raised (nothing moved where sender and receiver are the
    /// same account), every other account as it was, one more audit entry in
    /// the requested direction, and the success response stored under the key.
    pub open spec fn applied(
        self,
        key: Seq<char>,
        from: AccountId,
        to: AccountId,
        amount: Money,
        post: Ledger,
    ) -> bool {
        &&& forall|id: AccountId|
            id != from && id != to ==> #[trigger] post.account(id) == self.account(id)
        &&& from == to ==> post.account(from) == self.account(from)
        &&& from != to ==> post.account(from).is_some() && post.account(to).is_some() && updated(
            self.account(from).unwrap(),
            post.account(from).unwrap(),
            -amount@,
        ) && updated(self.account(to).unwrap(), post.account(to).unwrap(), amount@)
        &&& post.audit() == self.audit().push(
            TransactionLogEntry { id: self.audit().len() as usize, from, to, amount },
        )
        &&& forall|k: Seq<char>| #[trigger]
            post.response(k) == if k == key {
                Some(success_text())
            } else {
                self.response(k)
            }
        &&& forall|k: Seq<char>| #[trigger]
            post.status(k) == if k == key {
                Some(SUCCESS_STATUS)
            } else {
                self.status(k)
            }
    }

    /// What one run of the transfer service does, as a relation between the ledger
    /// before, the request, the ledger after and the result: a known key
    /// replays its stored response and changes nothing; a refused transfer
    /// fails with its reason and changes nothing; any other is applied.
    pub open spec fn outcome(
        self,
        key: Seq<char>,
        from: AccountId,
        to: AccountId,
        amount: Money,
        post: Ledger,
        result: Result<String, TransferError>,
    ) -> bool {
        match self.response(key) {
            Some(body) => post == self && (result matches Ok(text) && text@ == body),
            None => match self.verdict(from, to, amount) {
                Some(e) => post == self && result == Err::<String, TransferError>(e),
                None => self.applied(key, from, to, amount, post) && (result matches Ok(text)
                    && text@ == success_text()),
            },
        }
    }

    /// At most one idempotency record exists per key, and a key has a stored
    /// response exactly where a record has it.
    pub proof fn lemma_one_record_per_key(self)
        requires
            self.wf(),
        ensures
            forall|i: int, j: int|
                0 <= i < j < self.keys().len() ==> self.keys()[i] != self.keys()[j],
            forall|k: Seq<char>| self.response(k).is_none() ==> !self.keys().contains(k),
    {
        assert forall|k: Seq<char>| self.response(k).is_none() implies !self.keys().contains(
            k,
        ) by {
            lemma_fresh_key_is_unused(self.records@, k);
        }
    }

    /// No account of a well-formed ledger has a negative balance.
    pub proof fn lemma_balances_not_negative(self, id: AccountId)
        requires
            self.wf(),
        ensures
            self.account(id) matches Some(a) ==> a.id == id && a.balance@ >= 0,
    {
    }

    /// A ledger with no account, no record and an empty audit trail.
    pub fn new() -> (r: Ledger)
        ensures
            r.wf(),
            forall|id: AccountId| r.account(id).is_none(),
            forall|k: Seq<char>| r.response(k).is_none() && r.status(k).is_none(),
            r.audit() == Seq::<TransactionLogEntry>::empty(),
    {
        Ledger { accounts: HashMap::new(), records: Vec::new(), entries: Vec::new() }
    }

    /// Opens an account with the given balance at version 1. Refuses, and
    /// changes nothing, where the identifier is taken or the balance is
    /// negative.
    pub fn open_account(&mut self, id: AccountId, balance: Money) -> (r: bool)
        requires
            old(self).wf(),
        ensures
            final(self).wf(),
            r == (old(self).account(id).is_none() && balance@ >= 0),
            !r ==> *final(self) == *old(self),
            r ==> final(self).account(id) == Some(Account { id, balance, version: 1 }),
            forall|other: AccountId|
                other != id ==> #[trigger] final(self).account(other) == old(self).account(other),
            forall|k: Seq<char>| #[trigger] final(self).response(k) == old(self).response(k),
            forall|k: Seq<char>| #[trigger] final(self).status(k) == old(self).status(k),
            final(self).audit() == old(self).audit(),
    {
        let zero = Money::zero();
        if balance.less_than(&zero) || self.accounts.get(&id.0).is_some() {
            return false;
        }
        self.accounts.insert(id.0, Account { id, balance, version: 1 });
        true
    }

    /// The account with the given identifier, as it stands.
    pub fn find(&self, id: AccountId) -> (r: Option<Account>)
        requires
            self.wf(),
        ensures
            r == self.account(id),
            r matches Some(a) ==> a.id == id && a.balance@ >= 0,
    {
        match self.accounts.get(&id.0) {
            Some(a) => Some(*a),
            None => None,
        }
    }

    /// The position of the record with the given key, if there is one.
    fn locate(&self, key: &String) -> (r: Option<usize>)
        ensures
            match r {
                Some(i) => i < self.records@.len() && self.response(key@) == Some(
                    self.records@[i as int].response_body@,
                ) && self.status(key@) == Some(self.records@[i as int].response_status),
                None => self.response(key@).is_none() && self.status(key@).is_none(),
            },
    {
        let mut i: usize = self.records.len();
        assert(self.records@.take(i as int) =~= self.records@);
        while i > 0
            invariant
                i <= self.records.len(),
                stored_response(self.records@, key@) == stored_response(
                    self.records@.take(i as int),
                    key@,
                ),
                stored_status(self.records@, key@) == stored_status(
                    self.records@.take(i as int),
                    key@,
                ),
            decreases i,
        {
            i = i - 1;
            assert(self.records@.take(i + 1).last() == self.records@[i as int]);
            assert(self.records@.take(i + 1).drop_last() =~= self.records@.take(i as int));
            if self.records[i].key == *key {
                return Some(i);
            }
        }
        None
    }

    /// The response stored under `key`, if a transfer with that key was
    /// applied.
    pub fn lookup_response(&self, key: &String) -> (r: Option<String>)
        ensures
            r.is_some() == self.response(key@).is_some(),
            r matches Some(body) ==> self.response(key@) == Some(body@),
    {
        match self.locate(key) {
            Some(i) => Some(self.records[i].response_body.clone()),
            None => None,
        }
    }

    /// The response status stored under `key`, if a transfer with that key
    /// was applied.
    pub fn lookup_status(&self, key: &String) -> (r: Option<u16>)
        ensures
            r == self.status(key@),
    {
        match self.locate(key) {
            Some(i) => Some(self.records[i].response_status),
            None => None,
        }
    }

    /// The number of entries in the audit trail.
    pub fn audit_len(&self) -> (r: usize)
        ensures
            r == self.audit().len(),
    {
        self.entries.len()
    }

    /// The audit entry at position `i`, if there is one.
    pub fn audit_entry(&self, i: usize) -> (r: Option<TransactionLogEntry>)
        ensures
            r == if i < self.audit().len() {
                Some(self.audit()[i as int])
            } else {
                None
            },
    {
        if i < self.entries.len() {
            Some(self.entries[i])
        } else {
            None
        }
    }

    /// Decides `in_range`: whether the transfer service may be called with
    /// this request.
    pub fn can_execute(&self, key: &String, from: AccountId, to: AccountId, amount: Money) -> (r:
        bool)
        requires
            self.wf(),
        ensures
            r == self.in_range(key@, from, to, amount),
    {
        if self.lookup_response(key).is_some() || from.0 == to.0 {
            return true;
        }
        match (self.find(from), self.find(to)) {
            (Some(sender), Some(receiver)) => {
                if !amount.is_positive() || sender.balance.less_than(&amount) {
                    true
                } else {
                    can_settle(&sender, &receiver, amount) && sender.version < i32::MAX
                        && receiver.version < i32::MAX
                }
            },
            _ => true,
        }
    }

    /// Commits a unit of work: applies its writes together. Each written
    /// account replaces the stored one with its version raised, the audit
    /// entry is appended, and the success response is stored under the key.
    pub fn commit(&mut self, key: String, work: &UnitOfWork)
        requires
            old(self).wf(),
            old(self).response(key@).is_none(),
            work.record,
            work.audit.is_some(),
            work.sender.is_some() == work.receiver.is_some(),
            work.sender matches Some(s) ==> work.receiver.unwrap().id != s.id,
            work.sender matches Some(s) ==> s.version < i32::MAX && s.balance@ >= 0,
            work.receiver matches Some(r) ==> r.version < i32::MAX && r.balance@ >= 0,
            work.sender matches Some(s) ==> old(self).account(s.id).is_some(),
            work.receiver matches Some(r) ==> old(self).account(r.id).is_some(),
        ensures
            final(self).wf(),
            final(self).audit() == old(self).audit().push(
                TransactionLogEntry {
                    id: old(self).audit().len() as usize,
                    from: work.audit.unwrap().0,
                    to: work.audit.unwrap().1,
                    amount: work.audit.unwrap().2,
                },
            ),
            forall|k: Seq<char>| #[trigger]
                final(self).response(k) == if k == key@ {
                    Some(success_text())
                } else {
                    old(self).response(k)
                },
            forall|k: Seq<char>| #[trigger]
                final(self).status(k) == if k == key@ {
                    Some(SUCCESS_STATUS)
                } else {
                    old(self).status(k)
                },
            work.sender.is_none() ==> forall|id: AccountId| #[trigger]
                final(self).account(id) == old(self).account(id),
            work.sender.is_some() ==> forall|id: AccountId|
                id != work.sender.unwrap().id && id != work.receiver.unwrap().id
                    ==> #[trigger] final(self).account(id) == old(self).account(id),
            work.sender.is_some() ==> {
                let s = work.sender.unwrap();
                let r = work.receiver.unwrap();
                final(self).account(s.id) == Some(
                    Account { id: s.id, balance: s.balance, version: (s.version + 1) as i32 },
                ) && final(self).account(r.id) == Some(
                    Account { id: r.id, balance: r.balance, version: (r.version + 1) as i32 },
                )
            },
    {
        if let Some(s) = work.sender {
            self.accounts.insert(
                s.id.0,
                Account { id: s.id, balance: s.balance, version: s.version + 1 },
            );
        }
        if let Some(r) = work.receiver {
            self.accounts.insert(
                r.id.0,
                Account { id: r.id, balance: r.balance, version: r.version + 1 },
            );
        }
        if let Some((from, to, amount)) = work.audit {
            let position = self.entries.len();
            self.entries.push(TransactionLogEntry { id: position, from, to, amount });
        }
        let message = success_message();
        let ghost before = self.records@;
        proof {
            lemma_fresh_key_is_unused(before, key@);
        }
        self.records.push(
            IdempotencyRecord { key, response_status: SUCCESS_STATUS, response_body: message },
        );
        proof {
            assert(self.records@.drop_last() =~= before);
            assert(distinct_keys(self.records@)) by {
                assert forall|i: int, j: int| 0 <= i < j < self.records@.len() implies (
                #[trigger] self.records@[i]).key@ != (#[trigger] self.records@[j]).key@ by {
                    assert(self.records@[i] == before[i]);
                    if j < before.len() {
                        assert(self.records@[j] == before[j]);
                    }
                }
            }
        }
    }
}

/// The writes of one transfer, held back until the commit. Dropping it
/// without a commit leaves no effect.
pub struct UnitOfWork {
    pub sender: Option<Account>,
    pub receiver: Option<Account>,
    pub audit: Option<(AccountId, AccountId, Money)>,
    pub record: bool,
}

impl UnitOfWork {
    /// Whether nothing has been written yet.
    pub open spec fn is_empty(self) -> bool {
        self.sender.is_none() && self.receiver.is_none() && self.audit.is_none() && !self.record
    }

    /// Whether the unit of work holds the first `writes` writes of the
    /// transfer and no others: the sender, the receiver, the audit entry, the
    /// record. A transfer from an account to itself writes no account.
    pub open spec fn holds(
        self,
        ledger: Ledger,
        from: AccountId,
        to: AccountId,
        amount: Money,
        writes: int,
    ) -> bool {
        &&& from != to ==> (self.sender matches Some(s) && debited(
            ledger.account(from).unwrap(),
            s,
            amount@,
        ))
        &&& from != to && writes >= 2 ==> (self.receiver matches Some(r) && credited(
            ledger.account(to).unwrap(),
            r,
            amount@,
        ))
        &&& from == to ==> self.sender.is_none()
        &&& from == to || writes < 2 ==> self.receiver.is_none()
        &&& self.audit == if writes >= 3 {
            Some((from, to, amount))
        } else {
            None
        }
        &&& self.record == (writes >= 4)
    }

    /// A unit of work with nothing written.
    pub fn new() -> (r: UnitOfWork)
        ensures
            r.is_empty(),
    {
        UnitOfWork { sender: None, receiver: None, audit: None, record: false }
    }
}

} // verus!
