//! The ledger engine: accounts and the cache of disputable deposits, changed
//! one transaction at a time.
use vstd::prelude::*;
use ahash::AHashMap;

use crate::error::TxError;
use crate::ledger::{referral_step, replay, step, LedgerView};
use crate::maps::{
    account_entries, account_values, cache_entries, get_account, get_cached, new_account_map,
    new_cache_map, put_account, put_cached, remove_cached, CacheEntry,
};
use crate::model::{Account, DisputeState, Transaction, TransactionType};

verus! {

/// The ledger engine. Each client's account is created on its first accepted
/// transaction; deposits are kept until their dispute is settled.
pub struct State {
    accounts: AHashMap<u16, Account>,
    tx_cache: AHashMap<u32, CacheEntry>,
}

impl View for State {
    type V = LedgerView;

    closed spec fn view(&self) -> LedgerView {
        LedgerView { accounts: account_entries(self.accounts), cache: cache_entries(self.tx_cache) }
    }
}

impl Default for State {
    fn default() -> (r: State)
        ensures
            r@ == LedgerView::empty(),
            r.wf(),
    {
        State::new()
    }
}

impl State {
    /// The engine's invariant: every account is balanced and keyed by its id.
    pub open spec fn wf(&self) -> bool {
        self@.wf()
    }

    /// An engine with no accounts and no cached deposits.
    pub fn new() -> (r: State)
        ensures
            r@ == LedgerView::empty(),
            r.wf(),
    {
        let r = State { accounts: new_account_map(), tx_cache: new_cache_map() };
        assert(r@ =~= LedgerView::empty());
        r
    }

    /// Builds an engine and applies the transactions in order; a refused
    /// transaction is skipped and the replay goes on.
    pub fn from_iterator(txs: Vec<Transaction>) -> (r: State)
        ensures
            r@ == replay(LedgerView::empty(), txs@),
            r.wf(),
    {
        let mut this = State::new();
        let mut i: usize = 0;
        while i < txs.len()
            invariant
                i <= txs.len(),
                this.wf(),
                this@ == replay(LedgerView::empty(), txs@.take(i as int)),
            decreases txs.len() - i,
        {
            let _ = this.execute(txs[i]);
            proof {
                assert(txs@.take(i + 1).drop_last() =~= txs@.take(i as int));
            }
            i = i + 1;
        }
        assert(txs@.take(txs.len() as int) =~= txs@);
        this
    }

    /// Applies one transaction. On success the ledger is the one `step`
    /// gives; on failure it is unchanged and the error is the one `step` gives.
    pub fn execute(&mut self, tx: Transaction) -> (r: Result<(), TxError>)
        requires
            old(self).wf(),
        ensures
            final(self).wf(),
            match step(old(self)@, tx) {
                Ok(v) => r is Ok && final(self)@ == v,
                Err(e) => r == Err::<(), TxError>(e) && final(self)@ == old(self)@,
            },
    {
        if tx.tx_type.has_negative_amount() {
            return Err(TxError::InternalError);
        }
        let account = match get_account(&self.accounts, tx.client) {
            Some(a) => a,
            None => Account::zeroed(tx.client),
        };
        assert(account == self@.account(tx.client));
        if account.locked {
            return Err(TxError::AccountLocked);
        }
        match tx.tx_type {
            TransactionType::Deposit { amount } => {
                let available = match account.available.checked_add(amount) {
                    Some(x) => x,
                    None => return Err(TxError::InternalError),
                };
                let total = match account.total.checked_add(amount) {
                    Some(x) => x,
                    None => return Err(TxError::InternalError),
                };
                put_account(
                    &mut self.accounts,
                    tx.client,
                    Account { id: account.id, available, held: account.held, total, locked: account.locked },
                );
                put_cached(&mut self.tx_cache, tx.tx, (tx, None));
                Ok(())
            },
            TransactionType::Withdrawal { amount } => {
                if account.available < amount {
                    return Err(TxError::NotEnoughFunds);
                }
                let available = match account.available.checked_sub(amount) {
                    Some(x) => x,
                    None => return Err(TxError::InternalError),
                };
                let total = match account.total.checked_sub(amount) {
                    Some(x) => x,
                    None => return Err(TxError::InternalError),
                };
                put_account(
                    &mut self.accounts,
                    tx.client,
                    Account { id: account.id, available, held: account.held, total, locked: account.locked },
                );
                Ok(())
            },
            _ => self.apply_referral(tx, account),
        }
    }

    /// Applies a dispute, resolve or chargeback of the cached deposit `tx.tx`.
    fn apply_referral(&mut self, tx: Transaction, account: Account) -> (r: Result<(), TxError>)
        requires
            old(self).wf(),
            tx.tx_type.refers_to_deposit(),
            account == old(self)@.account(tx.client),
        ensures
            final(self).wf(),
            match referral_step(old(self)@, tx) {
                Ok(v) => r is Ok && final(self)@ == v,
                Err(e) => r == Err::<(), TxError>(e) && final(self)@ == old(self)@,
            },
    {
        let (orig, status) = match get_cached(&self.tx_cache, tx.tx) {
            Some(entry) => entry,
            None => return Err(TxError::TxDoesntExist),
        };
        if orig.client != tx.client {
            return Err(TxError::Unauthorized);
        }
        let is_dispute = matches!(tx.tx_type, TransactionType::Dispute);
        if is_dispute && status.is_some() {
            return Err(TxError::TxAlreadyDisputed);
        }
        let amount = match orig.tx_type {
            TransactionType::Deposit { amount } => amount,
            _ => return Err(TxError::InvalidDispute),
        };
        if is_dispute {
            let available = match account.available.checked_sub(amount) {
                Some(x) => x,
                None => return Err(TxError::InternalError),
            };
            let held = match account.held.checked_add(amount) {
                Some(x) => x,
                None => return Err(TxError::InternalError),
            };
            put_account(
                &mut self.accounts,
                tx.client,
                Account { id: account.id, available, held, total: account.total, locked: account.locked },
            );
            put_cached(&mut self.tx_cache, tx.tx, (orig, Some(DisputeState::Disputed)));
            return Ok(());
        }
        if !matches!(status, Some(DisputeState::Disputed)) {
            return Err(TxError::TxNotUnderDispute);
        }
        let held = match account.held.checked_sub(amount) {
            Some(x) => x,
            None => return Err(TxError::InternalError),
        };
        if matches!(tx.tx_type, TransactionType::Resolve) {
            let available = match account.available.checked_add(amount) {
                Some(x) => x,
                None => return Err(TxError::InternalError),
            };
            put_account(
                &mut self.accounts,
                tx.client,
                Account { id: account.id, available, held, total: account.total, locked: account.locked },
            );
        } else {
            let total = match account.total.checked_sub(amount) {
                Some(x) => x,
                None => return Err(TxError::InternalError),
            };
            put_account(
                &mut self.accounts,
                tx.client,
                Account { id: account.id, available: account.available, held, total, locked: true },
            );
        }
        // A settled dispute can never be reopened.
        remove_cached(&mut self.tx_cache, tx.tx);
        Ok(())
    }

    /// The client's account, if the client has one.
    pub fn account(&self, client: u16) -> (r: Option<Account>)
        ensures
            r == (if self@.accounts.contains_key(client) {
                Some(self@.accounts[client])
            } else {
                None
            }),
    {
        get_account(&self.accounts, client)
    }

    /// Every account once, in no particular order.
    pub fn accounts(&self) -> (r: Vec<Account>)
        ensures
            r@.len() == self@.accounts.len(),
            forall|i: int| 0 <= i < r@.len() ==> self@.accounts.values().contains(#[trigger] r@[i]),
            forall|c: u16| #[trigger] self@.accounts.contains_key(c) ==> r@.contains(self@.accounts[c]),
    {
        account_values(&self.accounts)
    }
}

} // verus!
