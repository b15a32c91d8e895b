//! The scheduler's global guarantees, stated over whole histories of
//! authoring events: well-formedness is preserved, no two authoring
//! cycles ever overlap, every queued command is answered exactly once,
//! and a node without a consensus never authors.

use vstd::prelude::*;
use crate::channel::{SealCommand, spec_timer_command};
use crate::pipeline::Transaction;
use crate::pool::{lemma_prune_distinct, staged_count};
use crate::proposer::spec_select;
use crate::scheduler::{
    NodeModel, SealOutcome, account_of, spec_admit_pool, spec_command_outcomes,
    spec_on_seal_command, spec_on_transaction_ready, spec_seal, spec_shutdown, spec_submit,
};

verus! {

/// One thing that can reach the authoring scheduler.
#[derive(Clone, Copy, Debug)]
pub enum AuthoringEvent {
    /// The pool signalled a newly admitted transaction.
    TransactionReady { now_ms: u64 },
    /// A seal command arrived from the channel.
    Command { cmd: SealCommand, now_ms: u64 },
    /// The process began shutting down.
    Shutdown,
}

/// What one event does to the node.
pub open spec fn spec_handle_event(m: NodeModel, e: AuthoringEvent) -> (NodeModel, SealOutcome) {
    match e {
        AuthoringEvent::TransactionReady { now_ms } => spec_on_transaction_ready(m, now_ms),
        AuthoringEvent::Command { cmd, now_ms } => spec_on_seal_command(m, cmd, now_ms),
        AuthoringEvent::Shutdown => (spec_shutdown(m), SealOutcome::NotAuthoring),
    }
}

/// The node after a whole history of events, oldest first.
pub open spec fn spec_run_events(m: NodeModel, es: Seq<AuthoringEvent>) -> NodeModel
    decreases es.len(),
{
    if es.len() == 0 {
        m
    } else {
        spec_run_events(spec_handle_event(m, es[0]).0, es.drop_first())
    }
}

/// One authoring cycle leaves a well-formed node well-formed, whatever
/// drives it.
pub proof fn lemma_seal_preserves_wf(
    m: NodeModel,
    create_empty: bool,
    finalize: bool,
    parent_hash: Option<u64>,
    now_ms: u64,
)
    requires
        m.wf(),
    ensures
        spec_seal(m, create_empty, finalize, parent_hash, now_ms).0.wf(),
{
    let sel = spec_select(m.pool, m.env, m.accounts, m.block_weight_limit, m.fees);
    lemma_prune_distinct(m.pool, sel.1);
}

/// Every event leaves a well-formed node well-formed.
pub proof fn lemma_handle_event_preserves_wf(m: NodeModel, e: AuthoringEvent)
    requires
        m.wf(),
    ensures
        spec_handle_event(m, e).0.wf(),
{
    match e {
        AuthoringEvent::TransactionReady { now_ms } => {
            if m.mode is InstantSeal {
                lemma_seal_preserves_wf(m, false, true, Option::None, now_ms);
            }
        },
        AuthoringEvent::Command { cmd, now_ms } => {
            if m.mode is ManualSeal {
                lemma_seal_preserves_wf(
                    m,
                    cmd.create_empty,
                    cmd.finalize,
                    cmd.parent_hash,
                    now_ms,
                );
            }
        },
        AuthoringEvent::Shutdown => {},
    }
}

/// Under every history of events, the scheduler never has two authoring
/// cycles in flight: after any prefix, at most one started cycle has not
/// completed.
pub proof fn lemma_no_overlapping_cycles(m: NodeModel, es: Seq<AuthoringEvent>)
    requires
        m.wf(),
    ensures
        spec_run_events(m, es).wf(),
        spec_run_events(m, es).cycles_started - spec_run_events(m, es).cycles_completed <= 1,
    decreases es.len(),
{
    if es.len() > 0 {
        lemma_handle_event_preserves_wf(m, es[0]);
        lemma_no_overlapping_cycles(spec_handle_event(m, es[0]).0, es.drop_first());
    }
}

/// Every queued command is consumed exactly once: one outcome per
/// command, in the commands' own order.
pub proof fn lemma_every_command_answered(m: NodeModel, cmds: Seq<SealCommand>, now_ms: u64)
    ensures
        spec_command_outcomes(m, cmds, now_ms).len() == cmds.len(),
    decreases cmds.len(),
{
    if cmds.len() > 0 {
        lemma_every_command_answered(
            spec_on_seal_command(m, cmds[0], now_ms).0,
            cmds.drop_first(),
            now_ms,
        );
    }
}

/// A node whose mode authors nothing stays inert under every history:
/// whatever the pool holds and however much time passes, no cycle starts
/// and no block appears.
pub proof fn lemma_no_authoring_mode_is_inert(m: NodeModel, es: Seq<AuthoringEvent>)
    requires
        m.mode is NoAuthoring,
    ensures
        spec_run_events(m, es).blocks == m.blocks,
        spec_run_events(m, es).cycles_started == m.cycles_started,
        spec_run_events(m, es).pool == m.pool,
        spec_run_events(m, es).accounts == m.accounts,
    decreases es.len(),
{
    if es.len() > 0 {
        lemma_no_authoring_mode_is_inert(spec_handle_event(m, es[0]).0, es.drop_first());
    }
}

/// In manual-seal mode, every timer tick commits a block — also over an
/// empty pool, since the timer's command asks for an empty block.
pub proof fn lemma_manual_tick_always_seals(m: NodeModel, now_ms: u64)
    requires
        m.wf(),
        m.mode is ManualSeal,
        m.state is Idle,
        m.env.block_height < u64::MAX,
        m.cycles_started < u64::MAX,
    ensures
        ({
            let sealed = spec_on_seal_command(m, spec_timer_command(), now_ms);
            &&& sealed.1 == SealOutcome::Sealed {
                hash: (m.env.block_height + 1) as u64,
                finalized: true,
            }
            &&& sealed.0.blocks.len() == m.blocks.len() + 1
            &&& sealed.0.state is Idle
        }),
{
}

/// In instant-seal mode, admitting one transaction to an empty pool and
/// following the readiness signal runs exactly one authoring cycle, and
/// the committed block holds exactly that transaction.
pub proof fn lemma_instant_seal_includes_submitted(m: NodeModel, tx: Transaction, now_ms: u64)
    requires
        m.wf(),
        m.mode is InstantSeal,
        m.state is Idle,
        m.pool.len() == 0,
        m.env.block_height < u64::MAX,
        m.cycles_started < u64::MAX,
        spec_submit(m, tx) is Ok,
    ensures
        ({
            let admitted = spec_admit_pool(m, tx);
            let sealed = spec_on_transaction_ready(admitted, now_ms);
            &&& sealed.1 matches SealOutcome::Sealed { hash, finalized } && hash == m.env.block_height
                + 1 && finalized
            &&& sealed.0.blocks.len() == m.blocks.len() + 1
            &&& sealed.0.blocks.last().txs == seq![tx]
            &&& sealed.0.cycles_started == m.cycles_started + 1
            &&& sealed.0.cycles_completed == sealed.0.cycles_started
        }),
{
    let admitted = spec_admit_pool(m, tx);
    assert(admitted.pool =~= seq![tx]);
    assert(staged_count(m.pool, tx.sender) == 0);
    assert(tx.sender < m.accounts.len());
    let acct = account_of(m.accounts, tx.sender);
    assert(crate::pipeline::spec_check_tx(
        tx,
        m.env,
        acct.nonce,
        m.block_weight_limit,
        acct,
        m.fees,
    ) is Ok);
    assert(acct == m.accounts[tx.sender as int]);
    let sel = spec_select(
        admitted.pool,
        admitted.env,
        admitted.accounts,
        admitted.block_weight_limit,
        admitted.fees,
    );
    assert(admitted.pool[0] == tx);
    assert(admitted.pool.drop_first() =~= Seq::<Transaction>::empty());
    reveal_with_fuel(spec_select, 3);
    assert(sel.0 =~= seq![tx]);
    let sealed = spec_on_transaction_ready(admitted, now_ms);
    assert(sealed.0.blocks.last().txs == seq![tx]);
}

/// In instant-seal mode, a readiness signal over an empty pool runs its
/// cycle without importing anything: no block appears.
pub proof fn lemma_instant_seal_empty_pool_no_block(m: NodeModel, now_ms: u64)
    requires
        m.wf(),
        m.mode is InstantSeal,
        m.state is Idle,
        m.pool.len() == 0,
        m.env.block_height < u64::MAX,
        m.cycles_started < u64::MAX,
    ensures
        spec_on_transaction_ready(m, now_ms).1 == SealOutcome::NoTransactions,
        spec_on_transaction_ready(m, now_ms).0.blocks == m.blocks,
        spec_on_transaction_ready(m, now_ms).0.accounts == m.accounts,
{
    assert(m.pool =~= Seq::<Transaction>::empty());
}

/// In instant-seal mode, a window in which nothing is submitted sees
/// zero authoring cycles: without a pool-readiness signal — and those
/// only follow submissions — no event starts a cycle and no block
/// appears.
pub proof fn lemma_instant_seal_no_submission_no_cycles(m: NodeModel, es: Seq<AuthoringEvent>)
    requires
        m.mode is InstantSeal,
        forall|i: int| 0 <= i < es.len() ==> !((#[trigger] es[i]) is TransactionReady),
    ensures
        spec_run_events(m, es).blocks == m.blocks,
        spec_run_events(m, es).cycles_started == m.cycles_started,
        spec_run_events(m, es).accounts == m.accounts,
    decreases es.len(),
{
    if es.len() > 0 {
        let rest = es.drop_first();
        assert forall|i: int| 0 <= i < rest.len() implies !((#[trigger] rest[i])
            is TransactionReady) by {
            assert(rest[i] == es[i + 1]);
        }
        lemma_instant_seal_no_submission_no_cycles(spec_handle_event(m, es[0]).0, rest);
    }
}

} // verus!
