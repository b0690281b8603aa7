use vstd::prelude::*;

verus! {

/// Amounts and balances are fixed-point numbers: one unit of currency is
/// `AMOUNT_SCALE` ticks, so four decimal places are kept exactly.
pub const AMOUNT_SCALE: i64 = 10000;

/// The state of a dispute on a deposit.
#[derive(Debug, Clone, Copy, PartialEq, Eq, Structural)]
pub enum DisputeState {
    /// The deposit is currently being disputed.
    Disputed,
    /// The dispute on the deposit has been settled.
    Resolved,
}

/// What a transaction does. Amounts are in ticks (see `AMOUNT_SCALE`).
#[derive(Debug, Clone, Copy, PartialEq, Eq, Structural)]
pub enum TransactionType {
    /// Credit `amount` to the client's available balance.
    Deposit { amount: i64 },
    /// Debit `amount` from the client's available balance.
    Withdrawal { amount: i64 },
    /// Freeze the funds of an earlier deposit.
    Dispute,
    /// Release the funds of a disputed deposit.
    Resolve,
    /// Remove the funds of a disputed deposit and lock the account.
    Chargeback,
}

/// One record of the transaction stream.
#[derive(Debug, Clone, Copy, PartialEq, Eq, Structural)]
pub struct Transaction {
    /// What the transaction does.
    pub tx_type: TransactionType,
    /// The client it belongs to.
    pub client: u16,
    /// The transaction identifier (for disputes: the deposit referred to).
    pub tx: u32,
}

/// The balances of one client.
#[derive(Debug, Clone, Copy, PartialEq, Eq, Structural)]
pub struct Account {
    /// The client identifier.
    pub id: u16,
    /// Funds the client may withdraw.
    pub available: i64,
    /// Funds frozen by open disputes.
    pub held: i64,
    /// `available + held`.
    pub total: i64,
    /// A locked account accepts no further transactions.
    pub locked: bool,
}

impl Account {
    /// The total balance is the sum of the available and held balances.
    pub open spec fn balanced(&self) -> bool {
        self.total == self.available + self.held
    }

    /// The account a client has before its first transaction.
    pub open spec fn spec_zeroed(id: u16) -> Account {
        Account { id, available: 0, held: 0, total: 0, locked: false }
    }

    /// A fresh, unlocked account with zero balances.
    pub fn zeroed(id: u16) -> (r: Account)
        ensures
            r == Account::spec_zeroed(id),
    {
        Account { id, available: 0, held: 0, total: 0, locked: false }
    }
}

impl TransactionType {
    /// A deposit or withdrawal of a negative amount.
    pub open spec fn spec_has_negative_amount(self) -> bool {
        match self {
            TransactionType::Deposit { amount } => amount < 0,
            TransactionType::Withdrawal { amount } => amount < 0,
            _ => false,
        }
    }

    /// Whether this is a deposit or withdrawal of a negative amount.
    pub fn has_negative_amount(&self) -> (r: bool)
        ensures
            r == self.spec_has_negative_amount(),
    {
        match self {
            TransactionType::Deposit { amount } => *amount < 0,
            TransactionType::Withdrawal { amount } => *amount < 0,
            _ => false,
        }
    }

    /// Dispute, resolve and chargeback refer to an earlier deposit.
    pub open spec fn refers_to_deposit(self) -> bool {
        match self {
            TransactionType::Dispute | TransactionType::Resolve | TransactionType::Chargeback => true,
            _ => false,
        }
    }
}

} // verus!
