use minimal_node::pipeline::{
    Account, ChainEnv, FeeParams, Reject, Transaction, apply_transaction, check_transaction,
    compute_fee, reclaim_weight,
};

fn env() -> ChainEnv {
    ChainEnv { spec_version: 0, tx_version: 1, genesis_hash: 0, block_height: 5 }
}

fn fees() -> FeeParams {
    FeeParams { weight_fee: 2, length_fee: 5 }
}

fn tx() -> Transaction {
    Transaction {
        sender: 1,
        call_authorized: true,
        spec_version: 0,
        tx_version: 1,
        genesis_hash: 0,
        era_start: 0,
        era_end: u64::MAX,
        nonce: 7,
        weight: 10,
        actual_weight: 10,
        tip: 3,
    }
}

fn acct() -> Account {
    Account { nonce: 7, balance: 100 }
}

#[test]
fn accepts_a_valid_transaction_with_exact_fee() {
    // fee = length 5 + weight 10 * 2 + tip 3
    let r = check_transaction(&tx(), &env(), 7, 1000, &acct(), &fees());
    assert_eq!(r, Ok(28));
}

#[test]
fn rejects_unauthorized_call() {
    let t = Transaction { call_authorized: false, ..tx() };
    let r = check_transaction(&t, &env(), 7, 1000, &acct(), &fees());
    assert_eq!(r, Err(Reject::UnauthorizedCall));
}

#[test]
fn rejects_zero_sender() {
    let t = Transaction { sender: 0, ..tx() };
    let r = check_transaction(&t, &env(), 7, 1000, &acct(), &fees());
    assert_eq!(r, Err(Reject::ZeroSender));
}

#[test]
fn rejects_wrong_spec_version() {
    let t = Transaction { spec_version: 9, ..tx() };
    let r = check_transaction(&t, &env(), 7, 1000, &acct(), &fees());
    assert_eq!(r, Err(Reject::WrongSpecVersion));
}

#[test]
fn rejects_wrong_tx_version() {
    let t = Transaction { tx_version: 9, ..tx() };
    let r = check_transaction(&t, &env(), 7, 1000, &acct(), &fees());
    assert_eq!(r, Err(Reject::WrongTxVersion));
}

#[test]
fn rejects_wrong_genesis_hash() {
    let t = Transaction { genesis_hash: 9, ..tx() };
    let r = check_transaction(&t, &env(), 7, 1000, &acct(), &fees());
    assert_eq!(r, Err(Reject::WrongGenesisHash));
}

#[test]
fn rejects_expired_era() {
    let t = Transaction { era_start: 0, era_end: 4, ..tx() };
    let r = check_transaction(&t, &env(), 7, 1000, &acct(), &fees());
    assert_eq!(r, Err(Reject::OutsideEra));
}

#[test]
fn rejects_not_yet_valid_era() {
    let t = Transaction { era_start: 6, era_end: u64::MAX, ..tx() };
    let r = check_transaction(&t, &env(), 7, 1000, &acct(), &fees());
    assert_eq!(r, Err(Reject::OutsideEra));
}

#[test]
fn rejects_stale_nonce_before_looking_at_the_balance() {
    let t = Transaction { nonce: 6, ..tx() };
    // The balance would also be too small, but the nonce check comes
    // first in the fixed order, so the fee-charge step is never reached.
    let broke = Account { nonce: 7, balance: 0 };
    let r = check_transaction(&t, &env(), 7, 1000, &broke, &fees());
    assert_eq!(r, Err(Reject::StaleNonce));
}

#[test]
fn rejects_future_nonce() {
    let t = Transaction { nonce: 8, ..tx() };
    let r = check_transaction(&t, &env(), 7, 1000, &acct(), &fees());
    assert_eq!(r, Err(Reject::FutureNonce));
}

#[test]
fn rejects_weight_over_budget() {
    let r = check_transaction(&tx(), &env(), 7, 9, &acct(), &fees());
    assert_eq!(r, Err(Reject::WeightExceeded));
}

#[test]
fn rejects_insufficient_balance_after_all_earlier_checks() {
    let poor = Account { nonce: 7, balance: 27 };
    let r = check_transaction(&tx(), &env(), 7, 1000, &poor, &fees());
    assert_eq!(r, Err(Reject::InsufficientBalance));
}

#[test]
fn fee_saturates_at_the_balance_maximum() {
    let t = Transaction { weight: 2, ..tx() };
    let f = FeeParams { weight_fee: u64::MAX, length_fee: 1 };
    assert_eq!(compute_fee(&t, &f), u64::MAX);
}

#[test]
fn fee_is_flat_under_the_development_schedule() {
    let f = FeeParams { weight_fee: 0, length_fee: 1 };
    assert_eq!(compute_fee(&tx(), &f), 4); // length 1 + tip 3
    let no_tip = Transaction { tip: 0, ..tx() };
    assert_eq!(compute_fee(&no_tip, &f), 1);
}

#[test]
fn applying_a_transaction_advances_nonce_and_charges_fee() {
    let a = apply_transaction(&acct(), 28);
    assert_eq!(a.nonce, 8);
    assert_eq!(a.balance, 72);
}

#[test]
fn reclaim_returns_the_over_estimate() {
    // 30 was charged, the dispatch used 20: 10 flows back.
    assert_eq!(reclaim_weight(50, 30, 20), 60);
}

#[test]
fn reclaim_never_charges_more_than_declared() {
    // The dispatch reported more than it declared: nothing flows back,
    // nothing more is charged.
    assert_eq!(reclaim_weight(50, 30, 40), 50);
}
