use minimal_node::chain_spec::development_fee_params;
use minimal_node::consensus::Consensus;
use minimal_node::pipeline::{Account, Reject, Transaction};
use minimal_node::proposer::Block;
use minimal_node::rpc::account_nonce;
use minimal_node::scheduler::{ImportError, Node, SchedulerState, SealOutcome};

fn ledger(n: usize, balance: u64) -> Vec<Account> {
    let mut v = vec![Account { nonce: 0, balance: 0 }];
    for _ in 0..n {
        v.push(Account { nonce: 0, balance });
    }
    v
}

fn node(mode: Consensus) -> Node {
    Node::new(mode, 0, 1, 0, ledger(3, 1000), development_fee_params(), 1_000_000)
}

fn tx(sender: u64, nonce: u64) -> Transaction {
    Transaction {
        sender,
        call_authorized: true,
        spec_version: 0,
        tx_version: 1,
        genesis_hash: 0,
        era_start: 0,
        era_end: u64::MAX,
        nonce,
        weight: 10,
        actual_weight: 10,
        tip: 0,
    }
}

#[test]
fn instant_seal_commits_the_submitted_transaction() {
    let mut n = node(Consensus::InstantSeal);
    assert_eq!(n.submit_transaction(&tx(1, 0)), Ok(1));
    let out = n.on_transaction_ready(42);
    assert_eq!(out, SealOutcome::Sealed { hash: 1, finalized: true });
    assert_eq!(n.blocks.len(), 1);
    assert_eq!(n.blocks[0].txs.len(), 1);
    assert_eq!(n.blocks[0].txs[0], tx(1, 0));
    assert_eq!(n.blocks[0].number, 1);
    assert_eq!(n.blocks[0].parent_hash, 0);
    assert_eq!(n.blocks[0].timestamp, 42);
    assert!(n.blocks[0].finalized);
    // The included transaction left the pool, its fee was charged and
    // its nonce consumed.
    assert_eq!(n.pool.len(), 0);
    assert_eq!(n.accounts[1], Account { nonce: 1, balance: 999 });
    assert_eq!(n.cycles_started, 1);
    assert_eq!(n.cycles_completed, 1);
}

#[test]
fn instant_seal_with_empty_pool_imports_nothing() {
    let mut n = node(Consensus::InstantSeal);
    let out = n.on_transaction_ready(42);
    assert_eq!(out, SealOutcome::NoTransactions);
    assert_eq!(n.blocks.len(), 0);
    assert_eq!(n.accounts[1], Account { nonce: 0, balance: 1000 });
}

#[test]
fn resubmitting_an_included_payload_is_stale_and_not_double_charged() {
    let mut n = node(Consensus::InstantSeal);
    let payload = tx(1, 0);
    assert_eq!(n.submit_transaction(&payload), Ok(1));
    assert_eq!(n.on_transaction_ready(7), SealOutcome::Sealed { hash: 1, finalized: true });
    let balance_after_inclusion = n.accounts[1].balance;
    // The identical payload again, after its inclusion.
    assert_eq!(n.submit_transaction(&payload), Err(Reject::StaleNonce));
    assert_eq!(n.accounts[1].balance, balance_after_inclusion);
    assert_eq!(n.pool.len(), 0);
    assert_eq!(n.blocks.len(), 1);
}

#[test]
fn stale_nonce_is_rejected_without_touching_the_balance() {
    let mut n = node(Consensus::InstantSeal);
    assert_eq!(n.submit_transaction(&tx(1, 0)), Ok(1));
    assert_eq!(n.on_transaction_ready(7), SealOutcome::Sealed { hash: 1, finalized: true });
    // nonce 0 is spent; the sender's balance must stay untouched by the
    // rejected resubmission even though it could pay the fee.
    let before = n.accounts[1];
    assert_eq!(n.submit_transaction(&tx(1, 0)), Err(Reject::StaleNonce));
    assert_eq!(n.accounts[1], before);
}

#[test]
fn insufficient_balance_is_rejected_at_the_fee_charge() {
    let mut n = Node::new(
        Consensus::InstantSeal,
        0,
        1,
        0,
        ledger(2, 0),
        development_fee_params(),
        1_000_000,
    );
    // Every earlier check passes; the development fee of one unit cannot
    // be paid from an empty balance.
    assert_eq!(n.submit_transaction(&tx(1, 0)), Err(Reject::InsufficientBalance));
    assert_eq!(n.pool.len(), 0);
}

#[test]
fn sender_outside_the_ledger_resolves_to_the_null_identity() {
    // The ledger holds identities 0 to 3; identity 9 resolves to
    // nothing and is rejected at the non-zero-sender check, never
    // admitted, so nothing un-includable ever enters the pool.
    let mut n = node(Consensus::InstantSeal);
    assert_eq!(n.submit_transaction(&tx(9, 0)), Err(Reject::ZeroSender));
    assert_eq!(n.pool.len(), 0);
}

#[test]
fn duplicate_staged_nonce_is_stale() {
    let mut n = node(Consensus::NoAuthoring);
    assert_eq!(n.submit_transaction(&tx(1, 0)), Ok(1));
    assert_eq!(n.submit_transaction(&tx(1, 0)), Err(Reject::StaleNonce));
    assert_eq!(n.pool.len(), 1);
}

#[test]
fn consecutive_nonces_from_one_sender_stage_and_commit_together() {
    let mut n = node(Consensus::ManualSeal(1000));
    assert_eq!(n.submit_transaction(&tx(1, 0)), Ok(1));
    assert_eq!(n.submit_transaction(&tx(1, 1)), Ok(1));
    assert_eq!(n.submit_transaction(&tx(2, 0)), Ok(1));
    let cmd = minimal_node::channel::timer_command();
    let out = n.on_seal_command(&cmd, 9);
    assert_eq!(out, SealOutcome::Sealed { hash: 1, finalized: true });
    assert_eq!(n.blocks[0].txs.len(), 3);
    assert_eq!(n.accounts[1], Account { nonce: 2, balance: 998 });
    assert_eq!(n.accounts[2], Account { nonce: 1, balance: 999 });
    assert_eq!(n.pool.len(), 0);
}

#[test]
fn manual_tick_seals_an_empty_block() {
    let mut n = node(Consensus::ManualSeal(3000));
    let cmd = minimal_node::channel::timer_command();
    let out = n.on_seal_command(&cmd, 11);
    assert_eq!(out, SealOutcome::Sealed { hash: 1, finalized: true });
    assert_eq!(n.blocks.len(), 1);
    assert_eq!(n.blocks[0].txs.len(), 0);
    let out2 = n.on_seal_command(&cmd, 12);
    assert_eq!(out2, SealOutcome::Sealed { hash: 2, finalized: true });
    assert_eq!(n.blocks.len(), 2);
    assert_eq!(n.blocks[1].parent_hash, 1);
}

#[test]
fn command_on_unknown_parent_aborts_the_cycle() {
    let mut n = node(Consensus::ManualSeal(3000));
    let mut cmd = minimal_node::channel::timer_command();
    cmd.parent_hash = Some(9);
    let out = n.on_seal_command(&cmd, 11);
    assert_eq!(out, SealOutcome::UnknownParent);
    assert_eq!(n.blocks.len(), 0);
    assert!(matches!(n.state, SchedulerState::Idle));
    // The aborted cycle both started and completed: nothing stays in
    // flight.
    assert_eq!(n.cycles_started, n.cycles_completed);
}

#[test]
fn command_on_the_explicit_head_seals() {
    let mut n = node(Consensus::ManualSeal(3000));
    let mut cmd = minimal_node::channel::timer_command();
    cmd.parent_hash = Some(0);
    assert_eq!(n.on_seal_command(&cmd, 11), SealOutcome::Sealed { hash: 1, finalized: true });
}

#[test]
fn no_authoring_mode_never_authors() {
    let mut n = node(Consensus::NoAuthoring);
    assert_eq!(n.submit_transaction(&tx(1, 0)), Ok(1));
    assert_eq!(n.on_transaction_ready(1), SealOutcome::NotAuthoring);
    let cmd = minimal_node::channel::timer_command();
    assert_eq!(n.on_seal_command(&cmd, 2), SealOutcome::NotAuthoring);
    assert_eq!(n.blocks.len(), 0);
    assert_eq!(n.cycles_started, 0);
    assert_eq!(n.pool.len(), 1);
    assert!(matches!(n.state, SchedulerState::Idle));
}

#[test]
fn stopped_scheduler_ignores_commands() {
    let mut n = node(Consensus::ManualSeal(3000));
    n.shutdown();
    assert!(matches!(n.state, SchedulerState::Stopped));
    let cmd = minimal_node::channel::timer_command();
    assert_eq!(n.on_seal_command(&cmd, 2), SealOutcome::NotAuthoring);
    assert_eq!(n.blocks.len(), 0);
}

#[test]
fn account_nonce_counts_staged_transactions() {
    let mut n = node(Consensus::ManualSeal(3000));
    assert_eq!(account_nonce(&n, 1), 0);
    assert_eq!(n.submit_transaction(&tx(1, 0)), Ok(1));
    assert_eq!(account_nonce(&n, 1), 1);
    assert_eq!(n.submit_transaction(&tx(1, 1)), Ok(1));
    assert_eq!(account_nonce(&n, 1), 2);
    let cmd = minimal_node::channel::timer_command();
    n.on_seal_command(&cmd, 3);
    assert_eq!(account_nonce(&n, 1), 2);
    assert_eq!(account_nonce(&n, 99), 0);
}

#[test]
fn weight_budget_defers_overweight_transactions() {
    let mut n = Node::new(
        Consensus::ManualSeal(1000),
        0,
        1,
        0,
        ledger(2, 1000),
        development_fee_params(),
        15,
    );
    // Two staged transactions of weight 10 each: only the first fits the
    // budget of 15; the second stays in the pool for the next block.
    assert_eq!(n.submit_transaction(&tx(1, 0)), Ok(1));
    assert_eq!(n.submit_transaction(&tx(1, 1)), Ok(1));
    let cmd = minimal_node::channel::timer_command();
    assert_eq!(n.on_seal_command(&cmd, 1), SealOutcome::Sealed { hash: 1, finalized: true });
    assert_eq!(n.blocks[0].txs.len(), 1);
    assert_eq!(n.pool.len(), 1);
    assert_eq!(n.on_seal_command(&cmd, 2), SealOutcome::Sealed { hash: 2, finalized: true });
    assert_eq!(n.blocks[1].txs.len(), 1);
    assert_eq!(n.pool.len(), 0);
}

#[test]
fn import_accepts_a_valid_external_block() {
    let mut n = node(Consensus::NoAuthoring);
    let b = Block { parent_hash: 0, number: 1, timestamp: 5, finalized: false, txs: vec![tx(1, 0)] };
    assert_eq!(n.import_block(b), Ok(()));
    assert_eq!(n.env.block_height, 1);
    assert_eq!(n.blocks.len(), 1);
    assert_eq!(n.accounts[1], Account { nonce: 1, balance: 999 });
    // Importing is not authoring: no cycle ran.
    assert_eq!(n.cycles_started, 0);
}

#[test]
fn import_rejects_a_block_off_the_head() {
    let mut n = node(Consensus::NoAuthoring);
    let b = Block { parent_hash: 7, number: 8, timestamp: 5, finalized: false, txs: vec![] };
    assert_eq!(n.import_block(b), Err(ImportError::WrongParent));
    let b2 = Block { parent_hash: 0, number: 2, timestamp: 5, finalized: false, txs: vec![] };
    assert_eq!(n.import_block(b2), Err(ImportError::WrongNumber));
    assert_eq!(n.blocks.len(), 0);
}

#[test]
fn import_rejects_a_block_whose_transaction_fails_revalidation() {
    let mut n = node(Consensus::NoAuthoring);
    // nonce 3 is not the sender's next nonce: re-validation fails and
    // the whole block is rejected, with no state change.
    let b = Block { parent_hash: 0, number: 1, timestamp: 5, finalized: false, txs: vec![tx(1, 3)] };
    assert_eq!(n.import_block(b), Err(ImportError::InvalidTransactions));
    assert_eq!(n.blocks.len(), 0);
    assert_eq!(n.accounts[1], Account { nonce: 0, balance: 1000 });
}
