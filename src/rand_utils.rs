//! Random transactions, for load testing the engine.
use vstd::prelude::*;
use rand::Rng;

use crate::model::{Transaction, TransactionType, AMOUNT_SCALE};

verus! {

pub assume_specification<T>[ rand::random::<T> ]() -> (r: T)
    where
        rand::distributions::Standard: rand::distributions::Distribution<T>,
;

/// Relies on rand's `Rng::gen_range` on the thread-local generator: a value
/// in `0..bound`, which is not empty.
#[verifier::external_body]
fn draw_below(bound: i64) -> (r: i64)
    requires
        bound > 0,
    ensures
        0 <= r < bound,
{
    rand::thread_rng().gen_range(0..bound)
}

impl TransactionType {
    /// The kind numbered `choice`: 0 deposit, 1 withdrawal, 2 dispute,
    /// 3 resolve, any other number chargeback.
    pub open spec fn spec_from_choice(choice: i64, amount: i64) -> TransactionType {
        if choice == 0 {
            TransactionType::Deposit { amount }
        } else if choice == 1 {
            TransactionType::Withdrawal { amount }
        } else if choice == 2 {
            TransactionType::Dispute
        } else if choice == 3 {
            TransactionType::Resolve
        } else {
            TransactionType::Chargeback
        }
    }

    /// The kind numbered `choice`, carrying `amount` where it has one.
    pub fn from_choice(choice: i64, amount: i64) -> (r: TransactionType)
        ensures
            r == TransactionType::spec_from_choice(choice, amount),
    {
        if choice == 0 {
            TransactionType::Deposit { amount }
        } else if choice == 1 {
            TransactionType::Withdrawal { amount }
        } else if choice == 2 {
            TransactionType::Dispute
        } else if choice == 3 {
            TransactionType::Resolve
        } else {
            TransactionType::Chargeback
        }
    }

    /// A kind drawn uniformly from the five; a deposit or withdrawal carries
    /// an amount below one unit of currency.
    pub fn random() -> (r: TransactionType)
        ensures
            exists|choice: i64, amount: i64|
                0 <= choice <= 4 && 0 <= amount < AMOUNT_SCALE
                    && r == #[trigger] TransactionType::spec_from_choice(choice, amount),
    {
        let choice = draw_below(5);
        let amount = draw_below(AMOUNT_SCALE);
        TransactionType::from_choice(choice, amount)
    }
}

impl Transaction {
    /// A transaction of a random kind, client and identifier.
    pub fn random() -> (r: Transaction)
        ensures
            exists|choice: i64, amount: i64|
                0 <= choice <= 4 && 0 <= amount < AMOUNT_SCALE
                    && r.tx_type == #[trigger] TransactionType::spec_from_choice(choice, amount),
    {
        let tx_type = TransactionType::random();
        let client: u16 = rand::random::<u16>();
        let tx: u32 = rand::random::<u32>();
        Transaction { tx_type, client, tx }
    }
}

} // verus!
