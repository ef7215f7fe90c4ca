//! The decisions of a transfer: the canonical lock order and the balance
//! mutation on the two locked accounts.

use crate::models::{debit_verdict, Account, AccountId, TransferError};
use crate::money::Money;
use uuid::Uuid;
use vstd::prelude::*;

verus! {

/// The status stored with the response of a completed transfer.
pub const SUCCESS_STATUS: u16 = 200;

/// The response of a completed transfer.
pub open spec fn success_text() -> Seq<char> {
    "Transfer Successful"@
}

/// The response of a completed transfer.
pub fn success_message() -> (r: String)
    ensures
        r@ == success_text(),
{
    "Transfer Successful".to_owned()
}

/// The pair `(low, high)` in which the two accounts of a transfer are locked.
pub open spec fn canonical_pair(from: AccountId, to: AccountId) -> (AccountId, AccountId) {
    if from.0 < to.0 {
        (from, to)
    } else {
        (to, from)
    }
}

/// Builds both identifiers with `Uuid::from_u128` and compares them with
/// `Uuid`'s `<`. A `Uuid` is its sixteen bytes, most significant first, and
/// is ordered byte by byte, which is the order of the two numbers.
#[verifier::external_body]
fn uuid_precedes(a: u128, b: u128) -> (r: bool)
    ensures
        r == (a < b),
{
    Uuid::from_u128(a) < Uuid::from_u128(b)
}

/// The order in which the two accounts of a transfer are locked: the smaller
/// identifier first, whatever the direction of the transfer.
pub fn lock_order(from: AccountId, to: AccountId) -> (r: (AccountId, AccountId))
    ensures
        r == canonical_pair(from, to),
        r.0.0 <= r.1.0,
{
    if uuid_precedes(from.0, to.0) {
        (from, to)
    } else {
        (to, from)
    }
}

/// Two transfers over the same pair of accounts lock them in the same order,
/// whichever way each of them moves the money, and the first lock is never on
/// the larger identifier.
pub proof fn lemma_lock_order_ignores_direction(a: AccountId, b: AccountId)
    ensures
        canonical_pair(a, b) == canonical_pair(b, a),
        canonical_pair(a, b).0.0 <= canonical_pair(a, b).1.0,
        canonical_pair(a, b) == (a, b) || canonical_pair(a, b) == (b, a),
{
}

/// Whether `settle` accepts the two accounts and the amount: where the
/// transfer goes through, both new balances must be exactly representable.
pub open spec fn settle_in_range(sender: Account, receiver: Account, amount: Money) -> bool {
    sender.debit_in_range(amount) && (debit_verdict(sender.balance@, amount@).is_none()
        ==> receiver.balance.can_add(amount))
}

/// Decides `settle_in_range`.
pub fn can_settle(sender: &Account, receiver: &Account, amount: Money) -> (r: bool)
    ensures
        r == settle_in_range(*sender, *receiver, amount),
{
    if !amount.is_positive() || sender.balance.less_than(&amount) {
        true
    } else {
        sender.balance.subtractable(&amount) && receiver.balance.addable(&amount)
    }
}

/// Whether `after` is `before` with `amount` taken out and nothing else
/// changed.
pub open spec fn debited(before: Account, after: Account, amount: int) -> bool {
    after.id == before.id && after.version == before.version && after.balance@ == before.balance@
        - amount
}

/// Whether `after` is `before` with `amount` added and nothing else changed.
pub open spec fn credited(before: Account, after: Account, amount: int) -> bool {
    after.id == before.id && after.version == before.version && after.balance@ == before.balance@
        + amount
}

/// Moves `amount` from the sender to the receiver, both already locked.
/// Fails with `InvalidAmount` where the amount is not positive and with
/// `InsufficientFunds` where it exceeds the sender's balance; otherwise hands
/// back both accounts with their new balances.
pub fn settle(sender: Account, receiver: Account, amount: Money) -> (r: Result<
    (Account, Account),
    TransferError,
>)
    requires
        settle_in_range(sender, receiver, amount),
    ensures
        r is Ok <==> debit_verdict(sender.balance@, amount@).is_none(),
        r matches Err(e) ==> debit_verdict(sender.balance@, amount@) == Some(e),
        r matches Ok(pair) ==> debited(sender, pair.0, amount@) && credited(
            receiver,
            pair.1,
            amount@,
        ),
{
    let mut sender = sender;
    let mut receiver = receiver;
    match sender.withdraw(amount) {
        Err(e) => Err(e),
        Ok(()) => match receiver.deposit(amount) {
            Err(e) => Err(e),
            Ok(()) => Ok((sender, receiver)),
        },
    }
}

/// Validates a transfer from an account to itself: the amount is checked as
/// for any debit, and the balance stays as it is.
pub fn validate_self_transfer(account: &Account, amount: Money) -> (r: Result<(), TransferError>)
    ensures
        r is Ok <==> debit_verdict(account.balance@, amount@).is_none(),
        r matches Err(e) ==> debit_verdict(account.balance@, amount@) == Some(e),
{
    if !amount.is_positive() {
        Err(TransferError::InvalidAmount)
    } else if account.balance.less_than(&amount) {
        Err(TransferError::InsufficientFunds)
    } else {
        Ok(())
    }
}

/// A settled transfer neither creates nor destroys money: what the sender
/// loses is what the receiver gains, so the two balances sum to what they
/// summed to before.
pub proof fn lemma_settle_conserves(
    sender: Account,
    receiver: Account,
    sender_after: Account,
    receiver_after: Account,
    amount: int,
)
    requires
        debited(sender, sender_after, amount),
        credited(receiver, receiver_after, amount),
    ensures
        sender_after.balance@ + receiver_after.balance@ == sender.balance@ + receiver.balance@,
        sender.balance@ - sender_after.balance@ == receiver_after.balance@ - receiver.balance@,
{
}

} // verus!
