//! The two hash maps of the ledger, kept in `ahash::AHashMap`, and what the
//! ledger relies on of that map's methods. Each map's contents have a name of
//! their own, so each method the ledger calls has one wrapper per map.
use vstd::prelude::*;
use ahash::AHashMap;

use crate::model::{Account, DisputeState, Transaction};

verus! {

#[verifier::external_type_specification]
#[verifier::external_body]
pub struct ExAHashRandomState(ahash::RandomState);

#[verifier::external_type_specification]
#[verifier::external_body]
#[verifier::reject_recursive_types(K)]
#[verifier::reject_recursive_types(V)]
#[verifier::reject_recursive_types(S)]
pub struct ExAHashMap<K, V, S>(ahash::AHashMap<K, V, S>);

/// A deposit kept for later disputes, with the state of its dispute.
pub type CacheEntry = (Transaction, Option<DisputeState>);

/// What an account map holds: client identifier to account.
pub uninterp spec fn account_entries(m: AHashMap<u16, Account>) -> Map<u16, Account>;

/// What a dispute cache holds: transaction identifier to cached deposit.
pub uninterp spec fn cache_entries(m: AHashMap<u32, CacheEntry>) -> Map<u32, CacheEntry>;

/// Relies on AHashMap::with_capacity: a new map is empty.
#[verifier::external_body]
pub(crate) fn new_account_map() -> (r: AHashMap<u16, Account>)
    ensures
        account_entries(r) =~= Map::empty(),
{
    AHashMap::with_capacity(1024)
}

/// Relies on AHashMap::get: the value stored under the key, if any.
#[verifier::external_body]
pub(crate) fn get_account(m: &AHashMap<u16, Account>, k: u16) -> (r: Option<Account>)
    ensures
        r == (if account_entries(*m).contains_key(k) {
            Some(account_entries(*m)[k])
        } else {
            None
        }),
{
    m.get(&k).copied()
}

/// Relies on AHashMap::insert: the key now maps to the value, other keys are kept.
#[verifier::external_body]
pub(crate) fn put_account(m: &mut AHashMap<u16, Account>, k: u16, v: Account)
    ensures
        account_entries(*final(m)) == account_entries(*old(m)).insert(k, v),
{
    m.insert(k, v);
}

/// Relies on HashMap::values (reached through AHashMap's `Deref`): every
/// stored value once, in some order.
#[verifier::external_body]
pub(crate) fn account_values(m: &AHashMap<u16, Account>) -> (r: Vec<Account>)
    ensures
        r@.len() == account_entries(*m).len(),
        forall|i: int| 0 <= i < r@.len() ==> account_entries(*m).values().contains(#[trigger] r@[i]),
        forall|k: u16| #[trigger] account_entries(*m).contains_key(k) ==>
            r@.contains(account_entries(*m)[k]),
{
    m.values().copied().collect()
}

/// Relies on AHashMap::with_capacity: a new map is empty.
#[verifier::external_body]
pub(crate) fn new_cache_map() -> (r: AHashMap<u32, CacheEntry>)
    ensures
        cache_entries(r) =~= Map::empty(),
{
    AHashMap::with_capacity(1024)
}

/// Relies on AHashMap::get: the value stored under the key, if any.
#[verifier::external_body]
pub(crate) fn get_cached(m: &AHashMap<u32, CacheEntry>, k: u32) -> (r: Option<CacheEntry>)
    ensures
        r == (if cache_entries(*m).contains_key(k) {
            Some(cache_entries(*m)[k])
        } else {
            None
        }),
{
    m.get(&k).copied()
}

/// Relies on AHashMap::insert: the key now maps to the value, other keys are kept.
#[verifier::external_body]
pub(crate) fn put_cached(m: &mut AHashMap<u32, CacheEntry>, k: u32, v: CacheEntry)
    ensures
        cache_entries(*final(m)) == cache_entries(*old(m)).insert(k, v),
{
    m.insert(k, v);
}

/// Relies on AHashMap::remove: the key is gone, other keys are kept.
#[verifier::external_body]
pub(crate) fn remove_cached(m: &mut AHashMap<u32, CacheEntry>, k: u32)
    ensures
        cache_entries(*final(m)) == cache_entries(*old(m)).remove(k),
{
    m.remove(&k);
}

} // verus!
