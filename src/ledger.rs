//! The mathematical model of the ledger: what one transaction does to the
//! accounts and to the cache of disputable deposits.
use vstd::prelude::*;

use crate::error::TxError;
use crate::maps::CacheEntry;
use crate::model::{Account, DisputeState, Transaction, TransactionType};

verus! {

/// The ledger as maps: client identifier to account, and transaction
/// identifier to the deposit it names and the state of its dispute.
pub struct LedgerView {
    pub accounts: Map<u16, Account>,
    pub cache: Map<u32, CacheEntry>,
}

/// Whether an integer is a value of `i64`.
pub open spec fn fits_i64(x: int) -> bool {
    i64::MIN <= x <= i64::MAX
}

impl LedgerView {
    /// The ledger before any transaction.
    pub open spec fn empty() -> LedgerView {
        LedgerView { accounts: Map::empty(), cache: Map::empty() }
    }

    /// Every account is stored under its own identifier and is balanced;
    /// the cache holds only deposits of non-negative amounts, stored under
    /// their own identifier, none of them with a settled dispute.
    pub open spec fn wf(self) -> bool {
        &&& forall|c: u16| #[trigger] self.accounts.contains_key(c) ==> {
            &&& self.accounts[c].id == c
            &&& self.accounts[c].balanced()
        }
        &&& forall|id: u32| #[trigger] self.cache.contains_key(id) ==> {
            &&& self.cache[id].0.tx == id
            &&& self.cache[id].1 != Some(DisputeState::Resolved)
            &&& match self.cache[id].0.tx_type {
                TransactionType::Deposit { amount } => amount >= 0,
                _ => false,
            }
        }
    }

    /// The client's account, or a fresh zeroed one if the client is new.
    pub open spec fn account(self, c: u16) -> Account {
        if self.accounts.contains_key(c) {
            self.accounts[c]
        } else {
            Account::spec_zeroed(c)
        }
    }
}

/// A deposit of `amount`: both balances grow; the deposit becomes disputable.
pub open spec fn deposit_step(v: LedgerView, t: Transaction, amount: i64) -> Result<LedgerView, TxError> {
    let a = v.account(t.client);
    if fits_i64(a.available + amount) && fits_i64(a.total + amount) {
        Ok(LedgerView {
            accounts: v.accounts.insert(t.client, Account {
                id: a.id,
                available: (a.available + amount) as i64,
                held: a.held,
                total: (a.total + amount) as i64,
                locked: a.locked,
            }),
            cache: v.cache.insert(t.tx, (t, None)),
        })
    } else {
        Err(TxError::InternalError)
    }
}

/// A withdrawal of `amount`: refused if the available balance is smaller.
pub open spec fn withdrawal_step(v: LedgerView, t: Transaction, amount: i64) -> Result<LedgerView, TxError> {
    let a = v.account(t.client);
    if a.available < amount {
        Err(TxError::NotEnoughFunds)
    } else if fits_i64(a.available - amount) && fits_i64(a.total - amount) {
        Ok(LedgerView {
            accounts: v.accounts.insert(t.client, Account {
                id: a.id,
                available: (a.available - amount) as i64,
                held: a.held,
                total: (a.total - amount) as i64,
                locked: a.locked,
            }),
            cache: v.cache,
        })
    } else {
        Err(TxError::InternalError)
    }
}

/// A dispute, resolve or chargeback of the cached deposit `t.tx`.
pub open spec fn referral_step(v: LedgerView, t: Transaction) -> Result<LedgerView, TxError> {
    let a = v.account(t.client);
    if !v.cache.contains_key(t.tx) {
        Err(TxError::TxDoesntExist)
    } else {
        let orig = v.cache[t.tx].0;
        let status = v.cache[t.tx].1;
        if orig.client != t.client {
            Err(TxError::Unauthorized)
        } else if t.tx_type == TransactionType::Dispute && status is Some {
            Err(TxError::TxAlreadyDisputed)
        } else {
            match orig.tx_type {
                TransactionType::Deposit { amount } => {
                    if t.tx_type == TransactionType::Dispute {
                        if fits_i64(a.available - amount) && fits_i64(a.held + amount) {
                            Ok(LedgerView {
                                accounts: v.accounts.insert(t.client, Account {
                                    id: a.id,
                                    available: (a.available - amount) as i64,
                                    held: (a.held + amount) as i64,
                                    total: a.total,
                                    locked: a.locked,
                                }),
                                cache: v.cache.insert(t.tx, (orig, Some(DisputeState::Disputed))),
                            })
                        } else {
                            Err(TxError::InternalError)
                        }
                    } else if status != Some(DisputeState::Disputed) {
                        Err(TxError::TxNotUnderDispute)
                    } else if t.tx_type == TransactionType::Resolve {
                        if fits_i64(a.held - amount) && fits_i64(a.available + amount) {
                            Ok(LedgerView {
                                accounts: v.accounts.insert(t.client, Account {
                                    id: a.id,
                                    available: (a.available + amount) as i64,
                                    held: (a.held - amount) as i64,
                                    total: a.total,
                                    locked: a.locked,
                                }),
                                cache: v.cache.remove(t.tx),
                            })
                        } else {
                            Err(TxError::InternalError)
                        }
                    } else {
                        if fits_i64(a.held - amount) && fits_i64(a.total - amount) {
                            Ok(LedgerView {
                                accounts: v.accounts.insert(t.client, Account {
                                    id: a.id,
                                    available: a.available,
                                    held: (a.held - amount) as i64,
                                    total: (a.total - amount) as i64,
                                    locked: true,
                                }),
                                cache: v.cache.remove(t.tx),
                            })
                        } else {
                            Err(TxError::InternalError)
                        }
                    }
                },
                _ => Err(TxError::InvalidDispute),
            }
        }
    }
}

/// What applying one transaction does: the new ledger, or the error for
/// which it is refused (a refused transaction changes nothing).
pub open spec fn step(v: LedgerView, t: Transaction) -> Result<LedgerView, TxError> {
    if t.tx_type.spec_has_negative_amount() {
        Err(TxError::InternalError)
    } else if v.account(t.client).locked {
        Err(TxError::AccountLocked)
    } else {
        match t.tx_type {
            TransactionType::Deposit { amount } => deposit_step(v, t, amount),
            TransactionType::Withdrawal { amount } => withdrawal_step(v, t, amount),
            _ => referral_step(v, t),
        }
    }
}

/// The ledger after applying the transactions in order, skipping the refused ones.
pub open spec fn replay(v: LedgerView, txs: Seq<Transaction>) -> LedgerView
    decreases txs.len(),
{
    if txs.len() == 0 {
        v
    } else {
        let prefix = replay(v, txs.drop_last());
        match step(prefix, txs.last()) {
            Ok(next) => next,
            Err(_) => prefix,
        }
    }
}

} // verus!
