//! Properties of the ledger that hold of every state and every transaction.
use vstd::prelude::*;

use crate::error::TxError;
use crate::ledger::{replay, step, LedgerView};
use crate::model::{Transaction, TransactionType};

verus! {

/// The amount of a deposit or withdrawal, zero for the other kinds.
pub open spec fn amount_of(t: Transaction) -> int {
    match t.tx_type {
        TransactionType::Deposit { amount } => amount as int,
        TransactionType::Withdrawal { amount } => amount as int,
        _ => 0,
    }
}

/// An accepted transaction keeps every account balanced (`total ==
/// available + held`) and the cache well-formed.
pub proof fn lemma_step_keeps_balances(v: LedgerView, t: Transaction)
    requires
        v.wf(),
    ensures
        step(v, t) is Ok ==> step(v, t)->Ok_0.wf(),
{
}

/// Only deposits are ever disputable: in a well-formed ledger no
/// transaction is refused with `InvalidDispute`.
pub proof fn lemma_only_deposits_are_disputable(v: LedgerView, t: Transaction)
    requires
        v.wf(),
    ensures
        step(v, t) != Err::<LedgerView, TxError>(TxError::InvalidDispute),
{
}

/// After any sequence of transactions every account is balanced.
pub proof fn lemma_replay_keeps_balances(v: LedgerView, txs: Seq<Transaction>)
    requires
        v.wf(),
    ensures
        replay(v, txs).wf(),
    decreases txs.len(),
{
    if txs.len() > 0 {
        lemma_replay_keeps_balances(v, txs.drop_last());
        lemma_step_keeps_balances(replay(v, txs.drop_last()), txs.last());
    }
}

/// Disputing a deposit just made moves its amount from available to held
/// and leaves the total as it was; such a dispute is refused only when a
/// balance would leave the range of `i64`.
pub proof fn lemma_deposit_then_dispute(v: LedgerView, client: u16, id: u32, amount: i64)
    requires
        v.wf(),
        step(v, Transaction { tx_type: TransactionType::Deposit { amount }, client, tx: id }) is Ok,
    ensures
        ({
            let v1 = step(v, Transaction { tx_type: TransactionType::Deposit { amount }, client, tx: id })->Ok_0;
            let r = step(v1, Transaction { tx_type: TransactionType::Dispute, client, tx: id });
            &&& r is Ok || r == Err::<LedgerView, TxError>(TxError::InternalError)
            &&& r is Ok ==> {
                let v2 = r->Ok_0;
                &&& v2.account(client).available == v1.account(client).available - amount
                &&& v2.account(client).held == v1.account(client).held + amount
                &&& v2.account(client).total == v1.account(client).total
            }
        }),
{
}

/// A dispute followed by a resolve of the same deposit always succeeds and
/// brings the client's balances back to what they were before the dispute.
pub proof fn lemma_dispute_then_resolve(v: LedgerView, client: u16, id: u32)
    requires
        v.wf(),
        step(v, Transaction { tx_type: TransactionType::Dispute, client, tx: id }) is Ok,
    ensures
        ({
            let v1 = step(v, Transaction { tx_type: TransactionType::Dispute, client, tx: id })->Ok_0;
            let r = step(v1, Transaction { tx_type: TransactionType::Resolve, client, tx: id });
            &&& r is Ok
            &&& r->Ok_0.account(client).available == v.account(client).available
            &&& r->Ok_0.account(client).held == v.account(client).held
            &&& r->Ok_0.account(client).total == v.account(client).total
            &&& r->Ok_0.account(client).total == v1.account(client).total
        }),
{
}

/// A chargeback after a dispute removes the disputed amount from the held
/// and total balances and locks the account.
pub proof fn lemma_dispute_then_chargeback(v: LedgerView, client: u16, id: u32)
    requires
        v.wf(),
        step(v, Transaction { tx_type: TransactionType::Dispute, client, tx: id }) is Ok,
        step(
            step(v, Transaction { tx_type: TransactionType::Dispute, client, tx: id })->Ok_0,
            Transaction { tx_type: TransactionType::Chargeback, client, tx: id },
        ) is Ok,
    ensures
        ({
            let amount = amount_of(v.cache[id].0);
            let v1 = step(v, Transaction { tx_type: TransactionType::Dispute, client, tx: id })->Ok_0;
            let v2 = step(v1, Transaction { tx_type: TransactionType::Chargeback, client, tx: id })->Ok_0;
            &&& v2.account(client).held == v1.account(client).held - amount
            &&& v2.account(client).total == v1.account(client).total - amount
            &&& v2.account(client).available == v1.account(client).available
            &&& v2.account(client).locked
        }),
{
}

/// A step leaves a locked account as it is.
proof fn lemma_step_keeps_locked_account(v: LedgerView, client: u16, t: Transaction)
    requires
        v.account(client).locked,
    ensures
        step(v, t) is Ok ==> step(v, t)->Ok_0.account(client) == v.account(client),
{
}

/// A locked account never changes again, and every later transaction of
/// its client (but for a negative amount, refused first) fails with
/// `AccountLocked`.
pub proof fn lemma_locked_account_is_frozen(v: LedgerView, client: u16, txs: Seq<Transaction>, t: Transaction)
    requires
        v.account(client).locked,
        t.client == client,
        !t.tx_type.spec_has_negative_amount(),
    ensures
        replay(v, txs).account(client) == v.account(client),
        step(replay(v, txs), t) == Err::<LedgerView, TxError>(TxError::AccountLocked),
    decreases txs.len(),
{
    if txs.len() > 0 {
        lemma_locked_account_is_frozen(v, client, txs.drop_last(), t);
        lemma_step_keeps_locked_account(replay(v, txs.drop_last()), client, txs.last());
    }
}

/// A deposit under dispute cannot be disputed a second time.
pub proof fn lemma_no_double_dispute(v: LedgerView, t: Transaction)
    requires
        t.tx_type == TransactionType::Dispute,
        step(v, t) is Ok,
    ensures
        step(step(v, t)->Ok_0, t) == Err::<LedgerView, TxError>(TxError::TxAlreadyDisputed),
{
}

/// Once a dispute is resolved or charged back, the deposit can no longer be
/// referred to by any client whose account is unlocked.
pub proof fn lemma_settled_deposit_is_gone(v: LedgerView, t: Transaction, later: Transaction)
    requires
        t.tx_type == TransactionType::Resolve || t.tx_type == TransactionType::Chargeback,
        step(v, t) is Ok,
        later.tx == t.tx,
        later.tx_type.refers_to_deposit(),
        !step(v, t)->Ok_0.account(later.client).locked,
    ensures
        step(step(v, t)->Ok_0, later) == Err::<LedgerView, TxError>(TxError::TxDoesntExist),
{
}

/// Disputing, resolving or charging back another client's deposit fails
/// with `Unauthorized`.
pub proof fn lemma_foreign_deposit_is_unauthorized(v: LedgerView, t: Transaction)
    requires
        t.tx_type.refers_to_deposit(),
        v.cache.contains_key(t.tx),
        v.cache[t.tx].0.client != t.client,
        !v.account(t.client).locked,
    ensures
        step(v, t) == Err::<LedgerView, TxError>(TxError::Unauthorized),
{
}

/// A negative deposit or withdrawal fails with `InternalError`, before the
/// account is looked at.
pub proof fn lemma_negative_amount_is_refused(v: LedgerView, t: Transaction)
    requires
        t.tx_type.spec_has_negative_amount(),
    ensures
        step(v, t) == Err::<LedgerView, TxError>(TxError::InternalError),
{
}

} // verus!
