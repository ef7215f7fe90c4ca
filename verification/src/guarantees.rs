//! What holds of every run of the transfer service, proved from its
//! contract.

use crate::ledger::Ledger;
use crate::models::{AccountId, TransferError};
use crate::money::Money;
use vstd::prelude::*;

verus! {

/// Conservation: a transfer that is applied between two different accounts
/// takes exactly the amount from the sender and gives exactly the amount to
/// the receiver, so the two balances together are what they were.
pub proof fn lemma_transfer_conserves(
    pre: Ledger,
    key: Seq<char>,
    from: AccountId,
    to: AccountId,
    amount: Money,
    post: Ledger,
    result: Result<String, TransferError>,
)
    requires
        pre.outcome(key, from, to, amount, post, result),
        pre.response(key).is_none(),
        result is Ok,
        from != to,
    ensures
        pre.account(from).is_some() && pre.account(to).is_some(),
        post.account(from).is_some() && post.account(to).is_some(),
        post.account(from).unwrap().balance@ == pre.account(from).unwrap().balance@ - amount@,
        post.account(to).unwrap().balance@ == pre.account(to).unwrap().balance@ + amount@,
        post.account(from).unwrap().balance@ + post.account(to).unwrap().balance@
            == pre.account(from).unwrap().balance@ + pre.account(to).unwrap().balance@,
{
}

/// Idempotent replay: once a call under a key has succeeded, a second call
/// under the same key, whatever accounts and amount it names, changes nothing
/// and returns the first call's response.
pub proof fn lemma_replay_changes_nothing(
    pre: Ledger,
    key: Seq<char>,
    from: AccountId,
    to: AccountId,
    amount: Money,
    mid: Ledger,
    first: Result<String, TransferError>,
    again_from: AccountId,
    again_to: AccountId,
    again_amount: Money,
    post: Ledger,
    second: Result<String, TransferError>,
)
    requires
        pre.outcome(key, from, to, amount, mid, first),
        first is Ok,
        mid.outcome(key, again_from, again_to, again_amount, post, second),
    ensures
        post == mid,
        second is Ok,
        second->Ok_0@ == first->Ok_0@,
        mid.in_range(key, again_from, again_to, again_amount),
{
}

/// Insufficient funds leave no trace: under a fresh key and between existing
/// accounts, an amount above the sender's balance fails with
/// `InsufficientFunds`, and the ledger (balances, audit trail, records) is
/// what it was.
pub proof fn lemma_insufficient_funds_leave_no_trace(
    pre: Ledger,
    key: Seq<char>,
    from: AccountId,
    to: AccountId,
    amount: Money,
    post: Ledger,
    result: Result<String, TransferError>,
)
    requires
        pre.wf(),
        pre.outcome(key, from, to, amount, post, result),
        pre.response(key).is_none(),
        pre.account(from).is_some() && pre.account(to).is_some(),
        amount@ > pre.account(from).unwrap().balance@,
    ensures
        result == Err::<String, TransferError>(TransferError::InsufficientFunds),
        post == pre,
{
    pre.lemma_balances_not_negative(from);
}

/// A non-positive amount is rejected: under a fresh key and between existing
/// accounts, an amount of zero or less fails with `InvalidAmount`, and the
/// ledger is what it was.
pub proof fn lemma_non_positive_amount_rejected(
    pre: Ledger,
    key: Seq<char>,
    from: AccountId,
    to: AccountId,
    amount: Money,
    post: Ledger,
    result: Result<String, TransferError>,
)
    requires
        pre.outcome(key, from, to, amount, post, result),
        pre.response(key).is_none(),
        pre.account(from).is_some() && pre.account(to).is_some(),
        amount@ <= 0,
    ensures
        result == Err::<String, TransferError>(TransferError::InvalidAmount),
        post == pre,
{
}

/// A run of transfers, one after the other: each ledger is what the service
/// made of the one before it, under the key of that step.
pub open spec fn is_run(
    ledgers: Seq<Ledger>,
    keys: Seq<Seq<char>>,
    from: AccountId,
    to: AccountId,
    amount: Money,
    results: Seq<Result<String, TransferError>>,
) -> bool {
    &&& ledgers.len() == keys.len() + 1
    &&& results.len() == keys.len()
    &&& forall|i: int|
        0 <= i < keys.len() ==> #[trigger] ledgers[i].outcome(
            keys[i],
            from,
            to,
            amount,
            ledgers[i + 1],
            results[i],
        )
}

/// Transfers of one amount from one account to another, under keys that are
/// fresh and differ from each other: where all of them succeed, the sender
/// ends with as many amounts less and the receiver with as many more as there
/// were transfers, in whatever order the keys were served.
pub proof fn lemma_run_moves_each_amount_once(
    ledgers: Seq<Ledger>,
    keys: Seq<Seq<char>>,
    from: AccountId,
    to: AccountId,
    amount: Money,
    results: Seq<Result<String, TransferError>>,
    served: int,
)
    requires
        is_run(ledgers, keys, from, to, amount, results),
        from != to,
        ledgers[0].account(from).is_some() && ledgers[0].account(to).is_some(),
        forall|i: int| 0 <= i < keys.len() ==> ledgers[0].response(#[trigger] keys[i]).is_none(),
        forall|i: int, j: int| 0 <= i < j < keys.len() ==> keys[i] != keys[j],
        forall|i: int| 0 <= i < results.len() ==> #[trigger] results[i] is Ok,
        0 <= served <= keys.len(),
    ensures
        ledgers[served].account(from).is_some() && ledgers[served].account(to).is_some(),
        ledgers[served].account(from).unwrap().balance@ == ledgers[0].account(
            from,
        ).unwrap().balance@ - served * amount@,
        ledgers[served].account(to).unwrap().balance@ == ledgers[0].account(to).unwrap().balance@
            + served * amount@,
        forall|j: int|
            served <= j < keys.len() ==> ledgers[served].response(#[trigger] keys[j]).is_none(),
    decreases served,
{
    if served > 0 {
        let i = served - 1;
        lemma_run_moves_each_amount_once(ledgers, keys, from, to, amount, results, i);
        assert(ledgers[i].outcome(keys[i], from, to, amount, ledgers[i + 1], results[i]));
        assert(results[i] is Ok);
        assert(ledgers[i].response(keys[i]).is_none());
        assert forall|j: int| served <= j < keys.len() implies ledgers[served].response(
            #[trigger] keys[j],
        ).is_none() by {
            assert(keys[i] != keys[j]);
            assert(ledgers[i].response(keys[j]).is_none());
        }
        assert(served * amount@ == i * amount@ + amount@) by (nonlinear_arith)
            requires
                served == i + 1,
        ;
    }
}

} // verus!
