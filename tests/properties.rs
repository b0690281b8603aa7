use corken::{Account, State, Transaction, TransactionType, TxError, AMOUNT_SCALE};

fn deposit(client: u16, tx: u32, amount: i64) -> Transaction {
    Transaction { tx_type: TransactionType::Deposit { amount }, client, tx }
}

fn withdrawal(client: u16, tx: u32, amount: i64) -> Transaction {
    Transaction { tx_type: TransactionType::Withdrawal { amount }, client, tx }
}

fn refer(tx_type: TransactionType, client: u16, tx: u32) -> Transaction {
    Transaction { tx_type, client, tx }
}

fn balances(state: &State, client: u16) -> (i64, i64, i64, bool) {
    let a = state.account(client).unwrap();
    (a.available, a.held, a.total, a.locked)
}

#[test]
fn every_account_stays_balanced() {
    let txs = vec![
        deposit(1, 1, 50 * AMOUNT_SCALE),
        deposit(2, 2, 7 * AMOUNT_SCALE),
        withdrawal(1, 3, 20 * AMOUNT_SCALE),
        refer(TransactionType::Dispute, 1, 1),
        withdrawal(2, 4, 9 * AMOUNT_SCALE),
        refer(TransactionType::Dispute, 2, 2),
        refer(TransactionType::Chargeback, 2, 2),
        refer(TransactionType::Resolve, 1, 1),
    ];
    let state = State::from_iterator(txs);
    let accounts = state.accounts();
    assert_eq!(accounts.len(), 2);
    for a in accounts {
        assert_eq!(a.total, a.available + a.held);
    }
    assert_eq!(balances(&state, 1), (30 * AMOUNT_SCALE, 0, 30 * AMOUNT_SCALE, false));
    assert_eq!(balances(&state, 2), (0, 0, 0, true));
}

#[test]
fn deposit_then_dispute_moves_amount_to_held() {
    let mut state = State::new();
    state.execute(deposit(3, 10, 15 * AMOUNT_SCALE)).unwrap();
    state.execute(deposit(3, 11, 4 * AMOUNT_SCALE)).unwrap();
    assert_eq!(balances(&state, 3), (19 * AMOUNT_SCALE, 0, 19 * AMOUNT_SCALE, false));
    state.execute(refer(TransactionType::Dispute, 3, 11)).unwrap();
    assert_eq!(balances(&state, 3), (15 * AMOUNT_SCALE, 4 * AMOUNT_SCALE, 19 * AMOUNT_SCALE, false));
}

#[test]
fn resolve_restores_balances() {
    let mut state = State::new();
    state.execute(deposit(1, 1, 12345)).unwrap();
    state.execute(withdrawal(1, 2, 345)).unwrap();
    let before = balances(&state, 1);
    state.execute(refer(TransactionType::Dispute, 1, 1)).unwrap();
    assert_eq!(balances(&state, 1), (-12345 + 12000, 12345, 12000, false));
    state.execute(refer(TransactionType::Resolve, 1, 1)).unwrap();
    assert_eq!(balances(&state, 1), before);
}

#[test]
fn chargeback_locks_and_refuses_everything_after() {
    let mut state = State::new();
    state.execute(deposit(1, 1, 120 * AMOUNT_SCALE)).unwrap();
    state.execute(deposit(1, 2, 30 * AMOUNT_SCALE)).unwrap();
    state.execute(refer(TransactionType::Dispute, 1, 1)).unwrap();
    state.execute(refer(TransactionType::Chargeback, 1, 1)).unwrap();
    assert_eq!(balances(&state, 1), (30 * AMOUNT_SCALE, 0, 30 * AMOUNT_SCALE, true));
    let after = state.account(1).unwrap();
    assert_eq!(state.execute(deposit(1, 3, AMOUNT_SCALE)), Err(TxError::AccountLocked));
    assert_eq!(state.execute(withdrawal(1, 4, AMOUNT_SCALE)), Err(TxError::AccountLocked));
    assert_eq!(state.execute(refer(TransactionType::Dispute, 1, 2)), Err(TxError::AccountLocked));
    assert_eq!(state.execute(refer(TransactionType::Resolve, 1, 2)), Err(TxError::AccountLocked));
    assert_eq!(state.account(1).unwrap(), after);
}

#[test]
fn second_dispute_is_refused() {
    let mut state = State::new();
    state.execute(deposit(1, 1, AMOUNT_SCALE)).unwrap();
    state.execute(refer(TransactionType::Dispute, 1, 1)).unwrap();
    assert_eq!(state.execute(refer(TransactionType::Dispute, 1, 1)), Err(TxError::TxAlreadyDisputed));
    assert_eq!(balances(&state, 1), (0, AMOUNT_SCALE, AMOUNT_SCALE, false));
}

#[test]
fn settled_deposit_is_gone_for_everyone() {
    let mut state = State::new();
    state.execute(deposit(1, 1, AMOUNT_SCALE)).unwrap();
    state.execute(deposit(2, 2, AMOUNT_SCALE)).unwrap();
    state.execute(refer(TransactionType::Dispute, 1, 1)).unwrap();
    state.execute(refer(TransactionType::Chargeback, 1, 1)).unwrap();
    assert_eq!(state.execute(refer(TransactionType::Dispute, 2, 1)), Err(TxError::TxDoesntExist));
    assert_eq!(state.execute(refer(TransactionType::Resolve, 2, 1)), Err(TxError::TxDoesntExist));
}

#[test]
fn resolve_without_dispute_is_refused() {
    let mut state = State::new();
    state.execute(deposit(1, 1, AMOUNT_SCALE)).unwrap();
    assert_eq!(state.execute(refer(TransactionType::Resolve, 1, 1)), Err(TxError::TxNotUnderDispute));
    assert_eq!(state.execute(refer(TransactionType::Chargeback, 1, 1)), Err(TxError::TxNotUnderDispute));
    assert_eq!(balances(&state, 1), (AMOUNT_SCALE, 0, AMOUNT_SCALE, false));
}

#[test]
fn withdrawal_cannot_be_disputed() {
    let mut state = State::new();
    state.execute(deposit(1, 1, 10 * AMOUNT_SCALE)).unwrap();
    state.execute(withdrawal(1, 2, AMOUNT_SCALE)).unwrap();
    assert_eq!(state.execute(refer(TransactionType::Dispute, 1, 2)), Err(TxError::TxDoesntExist));
}

#[test]
fn negative_amount_creates_no_account() {
    let mut state = State::new();
    assert_eq!(state.execute(deposit(7, 1, -1)), Err(TxError::InternalError));
    assert_eq!(state.execute(withdrawal(7, 2, -1)), Err(TxError::InternalError));
    assert!(state.account(7).is_none());
    assert!(state.accounts().is_empty());
}

#[test]
fn refused_transaction_creates_no_account() {
    let mut state = State::new();
    assert_eq!(state.execute(withdrawal(5, 1, 1)), Err(TxError::NotEnoughFunds));
    assert_eq!(state.execute(refer(TransactionType::Dispute, 5, 1)), Err(TxError::TxDoesntExist));
    assert!(state.account(5).is_none());
}

#[test]
fn zero_amounts_are_accepted() {
    let mut state = State::new();
    state.execute(deposit(1, 1, 0)).unwrap();
    state.execute(withdrawal(1, 2, 0)).unwrap();
    assert_eq!(balances(&state, 1), (0, 0, 0, false));
}

#[test]
fn overflowing_deposit_is_refused() {
    let mut state = State::new();
    state.execute(deposit(1, 1, i64::MAX)).unwrap();
    assert_eq!(state.execute(deposit(1, 2, 1)), Err(TxError::InternalError));
    assert_eq!(balances(&state, 1), (i64::MAX, 0, i64::MAX, false));
}

#[test]
fn replay_skips_refused_transactions() {
    let txs = vec![
        deposit(1, 1, 5 * AMOUNT_SCALE),
        withdrawal(1, 2, 6 * AMOUNT_SCALE),
        refer(TransactionType::Dispute, 2, 1),
        withdrawal(1, 3, 2 * AMOUNT_SCALE),
    ];
    let state = State::from_iterator(txs);
    assert_eq!(balances(&state, 1), (3 * AMOUNT_SCALE, 0, 3 * AMOUNT_SCALE, false));
    assert!(state.account(2).is_none());
}

#[test]
fn accounts_lists_each_client_once() {
    let mut state = State::default();
    for c in 1..=5u16 {
        state.execute(deposit(c, c as u32, c as i64)).unwrap();
    }
    let mut ids: Vec<u16> = state.accounts().iter().map(|a: &Account| a.id).collect();
    ids.sort();
    assert_eq!(ids, vec![1, 2, 3, 4, 5]);
    for a in state.accounts() {
        assert_eq!(a.available, a.id as i64);
    }
}

#[test]
fn zeroed_account_is_empty() {
    let a = Account::zeroed(9);
    assert_eq!(a, Account { id: 9, available: 0, held: 0, total: 0, locked: false });
}

#[test]
fn choice_numbers_name_kinds() {
    assert_eq!(TransactionType::from_choice(0, 42), TransactionType::Deposit { amount: 42 });
    assert_eq!(TransactionType::from_choice(1, 42), TransactionType::Withdrawal { amount: 42 });
    assert_eq!(TransactionType::from_choice(2, 42), TransactionType::Dispute);
    assert_eq!(TransactionType::from_choice(3, 42), TransactionType::Resolve);
    assert_eq!(TransactionType::from_choice(4, 42), TransactionType::Chargeback);
    assert_eq!(TransactionType::from_choice(9, 42), TransactionType::Chargeback);
}

#[test]
fn random_amounts_stay_below_one_unit() {
    for _ in 0..500 {
        match Transaction::random().tx_type {
            TransactionType::Deposit { amount } | TransactionType::Withdrawal { amount } => {
                assert!(0 <= amount && amount < AMOUNT_SCALE);
            }
            _ => {}
        }
    }
}

#[test]
fn negative_amount_flag() {
    assert!(TransactionType::Deposit { amount: -1 }.has_negative_amount());
    assert!(TransactionType::Withdrawal { amount: -5 }.has_negative_amount());
    assert!(!TransactionType::Deposit { amount: 0 }.has_negative_amount());
    assert!(!TransactionType::Dispute.has_negative_amount());
}

#[test]
fn error_messages() {
    assert_eq!(TxError::NotEnoughFunds.message(), "Account doesnt have enough funds");
    assert_eq!(TxError::AccountLocked.message(), "Account is locked.");
}
