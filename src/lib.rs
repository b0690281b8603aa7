//! A ledger engine that replays an ordered stream of client transactions
//! (deposits, withdrawals, disputes, resolves, chargebacks) and keeps the
//! resulting account balances.
pub mod error;
pub mod model;
pub mod maps;
pub mod ledger;
pub mod state;
pub mod laws;
pub mod rand_utils;

pub use error::TxError;
pub use state::State;
pub use model::{Account, DisputeState, Transaction, TransactionType, AMOUNT_SCALE};
