//! The proposer: builds a candidate block from pool contents and chain
//! state, within the block's weight budget, and the re-validation that the
//! import path runs over a candidate before committing it.

use vstd::prelude::*;
use vstd::pervasive::VecAdditionalExecFns;
use crate::pipeline::{
    Account, ChainEnv, FeeParams, Transaction, apply_transaction, check_transaction, reclaim_weight,
    spec_apply_tx, spec_check_tx,
};

verus! {

/// A candidate or committed block: an ordered sequence of validated
/// transactions plus the inherent timestamp, built against a specific
/// parent. In this model a block's hash is its height.
#[derive(Debug)]
pub struct Block {
    /// Hash (here: height) of the parent block; `0` is the genesis.
    pub parent_hash: u64,
    /// Height of this block, starting at `1`; also its hash.
    pub number: u64,
    /// Inherent data: the wall-clock time the block was authored at.
    pub timestamp: u64,
    /// Whether the block was immediately finalized on import.
    pub finalized: bool,
    /// The included transactions, in execution order.
    pub txs: Vec<Transaction>,
}

/// The weight that a dispatched transaction consumes for good: its
/// declared weight is charged up front and the over-estimate is reclaimed
/// by the pipeline's last step.
pub open spec fn consumed_weight(tx: Transaction) -> u64 {
    if tx.actual_weight < tx.weight {
        tx.actual_weight
    } else {
        tx.weight
    }
}

/// The proposer's selection: walk the pool in arrival order with a working
/// copy of the accounts and the remaining weight budget; a transaction
/// that passes the whole pipeline against the working state is included
/// and the working state advances, any other is skipped and stays behind.
/// Yields the included transactions, the accounts after them, and the
/// weight budget left.
pub open spec fn spec_select(
    entries: Seq<Transaction>,
    env: ChainEnv,
    accounts: Seq<Account>,
    remaining: u64,
    fees: FeeParams,
) -> (Seq<Transaction>, Seq<Account>, u64)
    decreases entries.len(),
{
    if entries.len() == 0 {
        (Seq::<Transaction>::empty(), accounts, remaining)
    } else {
        let tx = entries[0];
        let rest = entries.drop_first();
        if tx.sender < accounts.len() {
            let acct = accounts[tx.sender as int];
            match spec_check_tx(tx, env, acct.nonce, remaining, acct, fees) {
                Ok(fee) => {
                    let accounts2 = accounts.update(tx.sender as int, spec_apply_tx(fee, acct));
                    let rem2 = (remaining - consumed_weight(tx)) as u64;
                    let sub = spec_select(rest, env, accounts2, rem2, fees);
                    (seq![tx] + sub.0, sub.1, sub.2)
                },
                Err(_) => spec_select(rest, env, accounts, remaining, fees),
            }
        } else {
            spec_select(rest, env, accounts, remaining, fees)
        }
    }
}

/// The import path's re-validation: replaying the block's transactions in
/// order from the given state. Every transaction must pass the pipeline;
/// one failure rejects the whole block. Yields the accounts and remaining
/// weight after the replay.
pub open spec fn spec_replay(
    txs: Seq<Transaction>,
    env: ChainEnv,
    accounts: Seq<Account>,
    remaining: u64,
    fees: FeeParams,
) -> Option<(Seq<Account>, u64)>
    decreases txs.len(),
{
    if txs.len() == 0 {
        Some((accounts, remaining))
    } else {
        let tx = txs[0];
        if tx.sender < accounts.len() {
            let acct = accounts[tx.sender as int];
            match spec_check_tx(tx, env, acct.nonce, remaining, acct, fees) {
                Ok(fee) => spec_replay(
                    txs.drop_first(),
                    env,
                    accounts.update(tx.sender as int, spec_apply_tx(fee, acct)),
                    (remaining - consumed_weight(tx)) as u64,
                    fees,
                ),
                Err(_) => Option::<(Seq<Account>, u64)>::None,
            }
        } else {
            Option::<(Seq<Account>, u64)>::None
        }
    }
}

/// What the proposer selects, the importer accepts: replaying a selection
/// from the same state it was selected against succeeds and ends in the
/// selection's own final state.
pub proof fn lemma_select_replays(
    entries: Seq<Transaction>,
    env: ChainEnv,
    accounts: Seq<Account>,
    remaining: u64,
    fees: FeeParams,
)
    ensures
        ({
            let sel = spec_select(entries, env, accounts, remaining, fees);
            spec_replay(sel.0, env, accounts, remaining, fees) == Some((sel.1, sel.2))
        }),
    decreases entries.len(),
{
    if entries.len() > 0 {
        let tx = entries[0];
        let rest = entries.drop_first();
        if tx.sender < accounts.len() {
            let acct = accounts[tx.sender as int];
            match spec_check_tx(tx, env, acct.nonce, remaining, acct, fees) {
                Ok(fee) => {
                    let accounts2 = accounts.update(tx.sender as int, spec_apply_tx(fee, acct));
                    let rem2 = (remaining - consumed_weight(tx)) as u64;
                    lemma_select_replays(rest, env, accounts2, rem2, fees);
                    let sub = spec_select(rest, env, accounts2, rem2, fees);
                    let sel = spec_select(entries, env, accounts, remaining, fees);
                    assert(sel.0 == seq![tx] + sub.0);
                    assert(sel.0[0] == tx);
                    assert(sel.0.drop_first() =~= sub.0);
                },
                Err(_) => {
                    lemma_select_replays(rest, env, accounts, remaining, fees);
                },
            }
        } else {
            lemma_select_replays(rest, env, accounts, remaining, fees);
        }
    }
}

/// An element-wise copy of the ledger's accounts, for a working state.
pub fn copy_accounts(accounts: &Vec<Account>) -> (r: Vec<Account>)
    ensures
        r@ == accounts@,
{
    let mut r: Vec<Account> = Vec::new();
    let mut i: usize = 0;
    while i < accounts.len()
        invariant
            0 <= i <= accounts@.len(),
            r@ == accounts@.take(i as int),
        decreases accounts@.len() - i,
    {
        proof {
            assert(accounts@.take(i + 1).drop_last() =~= accounts@.take(i as int));
            assert(accounts@.take(i + 1).last() == accounts@[i as int]);
        }
        r.push(accounts[i]);
        i += 1;
    }
    proof {
        assert(accounts@.take(accounts@.len() as int) =~= accounts@);
    }
    r
}

/// Runs the proposer's selection over the staged entries.
pub fn select_transactions(
    entries: &Vec<Transaction>,
    env: &ChainEnv,
    accounts: &Vec<Account>,
    budget: u64,
    fees: &FeeParams,
) -> (r: (Vec<Transaction>, Vec<Account>, u64))
    ensures
        ({
            let sel = spec_select(entries@, *env, accounts@, budget, *fees);
            r.0@ == sel.0 && r.1@ == sel.1 && r.2 == sel.2
        }),
{
    let ghost goal = spec_select(entries@, *env, accounts@, budget, *fees);
    let mut included: Vec<Transaction> = Vec::new();
    let mut work: Vec<Account> = copy_accounts(accounts);
    let mut rem: u64 = budget;
    let mut i: usize = 0;
    proof {
        assert(entries@.skip(0) =~= entries@);
    }
    while i < entries.len()
        invariant
            0 <= i <= entries@.len(),
            ({
                let sub = spec_select(entries@.skip(i as int), *env, work@, rem, *fees);
                goal.0 == included@ + sub.0 && goal.1 == sub.1 && goal.2 == sub.2
            }),
        decreases entries@.len() - i,
    {
        proof {
            assert(entries@.skip(i as int)[0] == entries@[i as int]);
            assert(entries@.skip(i as int).drop_first() =~= entries@.skip(i + 1));
        }
        let tx = entries[i];
        if tx.sender < (work.len() as u64) {
            let idx = tx.sender as usize;
            let acct = work[idx];
            match check_transaction(&tx, env, acct.nonce, rem, &acct, fees) {
                Ok(fee) => {
                    let updated = apply_transaction(&acct, fee);
                    work.set(idx, updated);
                    rem = reclaim_weight(rem - tx.weight, tx.weight, tx.actual_weight);
                    included.push(tx);
                    proof {
                        let sub = spec_select(entries@.skip(i + 1), *env, work@, rem, *fees);
                        assert(included@ + sub.0 =~= included@.drop_last() + (seq![tx] + sub.0));
                    }
                },
                Err(_) => {},
            }
        }
        i += 1;
    }
    proof {
        assert(entries@.skip(entries@.len() as int) =~= Seq::<Transaction>::empty());
        assert(goal.0 =~= included@);
    }
    (included, work, rem)
}

/// Replays a candidate block's transactions from the current state, as
/// the import path's re-validation: either every transaction passes and
/// the resulting state comes back, or the block is rejected whole.
pub fn replay_transactions(
    txs: &Vec<Transaction>,
    env: &ChainEnv,
    accounts: &Vec<Account>,
    budget: u64,
    fees: &FeeParams,
) -> (r: Option<(Vec<Account>, u64)>)
    ensures
        ({
            let rep = spec_replay(txs@, *env, accounts@, budget, *fees);
            match r {
                Some(p) => rep == Some((p.0@, p.1)),
                Option::None => rep is None,
            }
        }),
{
    let ghost goal = spec_replay(txs@, *env, accounts@, budget, *fees);
    let mut work: Vec<Account> = copy_accounts(accounts);
    let mut rem: u64 = budget;
    let mut i: usize = 0;
    proof {
        assert(txs@.skip(0) =~= txs@);
    }
    while i < txs.len()
        invariant
            0 <= i <= txs@.len(),
            goal == spec_replay(txs@, *env, accounts@, budget, *fees),
            goal == spec_replay(txs@.skip(i as int), *env, work@, rem, *fees),
        decreases txs@.len() - i,
    {
        proof {
            assert(txs@.skip(i as int)[0] == txs@[i as int]);
            assert(txs@.skip(i as int).drop_first() =~= txs@.skip(i + 1));
        }
        let tx = txs[i];
        if tx.sender < (work.len() as u64) {
            let idx = tx.sender as usize;
            let acct = work[idx];
            match check_transaction(&tx, env, acct.nonce, rem, &acct, fees) {
                Ok(fee) => {
                    let updated = apply_transaction(&acct, fee);
                    work.set(idx, updated);
                    rem = reclaim_weight(rem - tx.weight, tx.weight, tx.actual_weight);
                },
                Err(e) => {
                    proof {
                        assert(spec_check_tx(tx, *env, acct.nonce, rem, acct, *fees) == Err::<
                            u64,
                            crate::pipeline::Reject,
                        >(e));
                        assert(spec_replay(txs@.skip(i as int), *env, work@, rem, *fees) is None);
                    }
                    return Option::<(Vec<Account>, u64)>::None;
                },
            }
        } else {
            proof {
                assert(spec_replay(txs@.skip(i as int), *env, work@, rem, *fees) is None);
            }
            return Option::<(Vec<Account>, u64)>::None;
        }
        i += 1;
    }
    proof {
        assert(txs@.skip(txs@.len() as int) =~= Seq::<Transaction>::empty());
    }
    Some((work, rem))
}

} // verus!
