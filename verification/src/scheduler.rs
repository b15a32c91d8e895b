//! The authoring scheduler: the state machine that, per consensus mode,
//! decides when to run the proposer and hand the candidate to block
//! import. One authoring cycle (proposing, then importing) runs at a
//! time; manual-seal commands are consumed strictly in arrival order.

use vstd::prelude::*;
use crate::channel::{
    SealCommand, SealCommandChannel, channel_buffer, channel_contents, channel_try_recv,
    spec_timer_command,
};
use crate::consensus::Consensus;
use crate::pipeline::{Account, ChainEnv, FeeParams, Reject, Transaction};
use crate::pool::{TransactionPool, key_distinct, spec_admit, spec_prune};
use crate::proposer::{
    Block, lemma_select_replays, replay_transactions, select_transactions, spec_replay,
    spec_select,
};

verus! {

/// The scheduler's phase. `Proposing` and `Importing` together form one
/// authoring cycle; `Stopped` is terminal.
#[derive(Clone, Copy, Debug, PartialEq, Eq, Structural)]
pub enum SchedulerState {
    Idle,
    Proposing,
    Importing,
    Stopped,
}

/// The outcome of one authoring event, also the answer delivered to a
/// command's waiting response channel, if it has one.
#[derive(Clone, Copy, Debug, PartialEq, Eq)]
pub enum SealOutcome {
    /// A block was authored, imported and committed; its hash, and
    /// whether it was finalized at once.
    Sealed { hash: u64, finalized: bool },
    /// The pool offered nothing includable and an empty block was not
    /// asked for: back to idle without importing.
    NoTransactions,
    /// This event authors nothing here: wrong mode, a scheduler that is
    /// stopped or busy, or an exhausted height or cycle counter.
    NotAuthoring,
    /// The command named a parent that is not the current best head; the
    /// proposer fails and the cycle aborts.
    UnknownParent,
}

/// A block, as the contracts see it.
pub struct BlockModel {
    pub parent_hash: u64,
    pub number: u64,
    pub timestamp: u64,
    pub finalized: bool,
    pub txs: Seq<Transaction>,
}

impl View for Block {
    type V = BlockModel;

    open spec fn view(&self) -> BlockModel {
        BlockModel {
            parent_hash: self.parent_hash,
            number: self.number,
            timestamp: self.timestamp,
            finalized: self.finalized,
            txs: self.txs@,
        }
    }
}

/// The whole node, as the contracts see it.
pub struct NodeModel {
    pub mode: Consensus,
    pub state: SchedulerState,
    pub env: ChainEnv,
    pub fees: FeeParams,
    pub block_weight_limit: u64,
    pub accounts: Seq<Account>,
    pub blocks: Seq<BlockModel>,
    pub pool: Seq<Transaction>,
    pub cycles_started: u64,
    pub cycles_completed: u64,
}

impl NodeModel {
    /// Well-formedness: the pool is de-duplicated, the height counts the
    /// committed blocks, and at most one authoring cycle is ever in
    /// flight — the scheduler is mid-cycle exactly when one started
    /// cycle has not completed.
    pub open spec fn wf(self) -> bool {
        &&& key_distinct(self.pool)
        &&& self.cycles_completed <= self.cycles_started
        &&& self.cycles_started - self.cycles_completed <= 1
        &&& ((self.state is Proposing || self.state is Importing) <==> self.cycles_started
            == self.cycles_completed + 1)
        &&& self.env.block_height == self.blocks.len()
    }
}

/// The account an identity resolves to: an identity outside the ledger's
/// table owns nothing and has never transacted.
pub open spec fn account_of(accounts: Seq<Account>, sender: u64) -> Account {
    if sender < accounts.len() {
        accounts[sender as int]
    } else {
        Account { nonce: 0, balance: 0 }
    }
}

/// A full node: ledger, pool and authoring scheduler, driven by events.
pub struct Node {
    /// The drive strategy, fixed for the process lifetime.
    pub mode: Consensus,
    pub state: SchedulerState,
    pub env: ChainEnv,
    pub fees: FeeParams,
    /// The weight budget of one block.
    pub block_weight_limit: u64,
    /// Account `i` of the ledger; identity `0` is the null identity.
    pub accounts: Vec<Account>,
    /// The committed chain; block `i` has height and hash `i + 1`.
    pub blocks: Vec<Block>,
    pub pool: TransactionPool,
    /// How many authoring cycles ever began.
    pub cycles_started: u64,
    /// How many authoring cycles ended (committed or aborted).
    pub cycles_completed: u64,
}

impl View for Node {
    type V = NodeModel;

    open spec fn view(&self) -> NodeModel {
        NodeModel {
            mode: self.mode,
            state: self.state,
            env: self.env,
            fees: self.fees,
            block_weight_limit: self.block_weight_limit,
            accounts: self.accounts@,
            blocks: self.blocks@.map_values(|b: Block| b@),
            pool: self.pool@,
            cycles_started: self.cycles_started,
            cycles_completed: self.cycles_completed,
        }
    }
}

/// Both counters advance together: a cycle began and ended (aborted or
/// committed) within one event.
pub open spec fn spec_bump_cycle(m: NodeModel) -> NodeModel {
    NodeModel {
        cycles_started: (m.cycles_started + 1) as u64,
        cycles_completed: (m.cycles_completed + 1) as u64,
        ..m
    }
}

/// The head's hash: the height of the last committed block, `0` at
/// genesis.
pub open spec fn spec_head_hash(m: NodeModel) -> u64 {
    m.env.block_height
}

/// Does the command's parent name the current best head?
pub open spec fn spec_parent_ok(m: NodeModel, parent_hash: Option<u64>) -> bool {
    match parent_hash {
        Some(h) => h == spec_head_hash(m),
        Option::None => true,
    }
}

/// One authoring cycle, as run for one trigger or one seal command:
/// propose against the head, then import and commit, and return to idle.
/// A busy or stopped scheduler authors nothing; a proposer failure (an
/// unknown parent) aborts the cycle; without `create_empty` an empty
/// selection ends the cycle before import. An imported block advances
/// the head, applies the included transactions' fees and nonces, and
/// prunes the pool.
pub open spec fn spec_seal(
    m: NodeModel,
    create_empty: bool,
    finalize: bool,
    parent_hash: Option<u64>,
    now_ms: u64,
) -> (NodeModel, SealOutcome) {
    if !(m.state is Idle) {
        (m, SealOutcome::NotAuthoring)
    } else if m.env.block_height == u64::MAX || m.cycles_started == u64::MAX {
        (m, SealOutcome::NotAuthoring)
    } else if !spec_parent_ok(m, parent_hash) {
        (spec_bump_cycle(m), SealOutcome::UnknownParent)
    } else {
        let sel = spec_select(m.pool, m.env, m.accounts, m.block_weight_limit, m.fees);
        if !create_empty && sel.0.len() == 0 {
            (spec_bump_cycle(m), SealOutcome::NoTransactions)
        } else {
            let number = (m.env.block_height + 1) as u64;
            let block = BlockModel {
                parent_hash: spec_head_hash(m),
                number,
                timestamp: now_ms,
                finalized: finalize,
                txs: sel.0,
            };
            let committed = NodeModel {
                env: ChainEnv { block_height: number, ..m.env },
                accounts: sel.1,
                blocks: m.blocks.push(block),
                pool: spec_prune(m.pool, sel.1),
                cycles_started: (m.cycles_started + 1) as u64,
                cycles_completed: (m.cycles_completed + 1) as u64,
                ..m
            };
            (committed, SealOutcome::Sealed { hash: number, finalized: finalize })
        }
    }
}

/// The pool-readiness signal: in instant-seal mode it triggers one cycle
/// that only authors when there is something to include; any other mode
/// ignores it.
pub open spec fn spec_on_transaction_ready(m: NodeModel, now_ms: u64) -> (NodeModel, SealOutcome) {
    if m.mode is InstantSeal {
        spec_seal(m, false, true, Option::None, now_ms)
    } else {
        (m, SealOutcome::NotAuthoring)
    }
}

/// One seal command, consumed by the manual-seal loop; any other mode
/// ignores it.
pub open spec fn spec_on_seal_command(m: NodeModel, cmd: SealCommand, now_ms: u64) -> (
    NodeModel,
    SealOutcome,
) {
    if m.mode is ManualSeal {
        spec_seal(m, cmd.create_empty, cmd.finalize, cmd.parent_hash, now_ms)
    } else {
        (m, SealOutcome::NotAuthoring)
    }
}

/// Shutdown: any in-flight cycle counts as ended, and the scheduler
/// reaches its terminal state.
pub open spec fn spec_shutdown(m: NodeModel) -> NodeModel {
    NodeModel { state: SchedulerState::Stopped, cycles_completed: m.cycles_started, ..m }
}

/// Why block import rejects a block.
#[derive(Clone, Copy, Debug, PartialEq, Eq, Structural)]
pub enum ImportError {
    /// The block does not build on the current best head.
    WrongParent,
    /// The block's height is not the next height.
    WrongNumber,
    /// A transaction of the block fails re-validation.
    InvalidTransactions,
}

/// Block import, for a candidate or an externally received block: the
/// block must build on the head, carry the next height, and replay
/// cleanly; then it commits, the head advances and the pool prunes. A
/// rejection carries its reason and leaves the chain untouched.
pub open spec fn spec_import(m: NodeModel, b: BlockModel) -> (NodeModel, Result<
    (),
    ImportError,
>) {
    if b.parent_hash != spec_head_hash(m) {
        (m, Err(ImportError::WrongParent))
    } else if m.env.block_height == u64::MAX || b.number != m.env.block_height + 1 {
        (m, Err(ImportError::WrongNumber))
    } else {
        match spec_replay(b.txs, m.env, m.accounts, m.block_weight_limit, m.fees) {
            Some(after) => {
                let committed = NodeModel {
                    env: ChainEnv { block_height: b.number, ..m.env },
                    accounts: after.0,
                    blocks: m.blocks.push(b),
                    pool: spec_prune(m.pool, after.0),
                    ..m
                };
                (committed, Ok(()))
            },
            Option::None => (m, Err(ImportError::InvalidTransactions)),
        }
    }
}

/// The node after a successful pool admission.
pub open spec fn spec_admit_pool(m: NodeModel, tx: Transaction) -> NodeModel {
    NodeModel { pool: m.pool.push(tx), ..m }
}

/// Pool admission at the node's boundary. A sender outside the ledger's
/// table resolves to nothing, like the null identity, and is rejected at
/// the non-zero-sender check; the proposer and the import replay treat
/// such a sender the same way, so whatever is admitted here can also be
/// included. Everything else is the pool's admission rule.
pub open spec fn spec_submit(m: NodeModel, tx: Transaction) -> Result<u64, Reject> {
    if tx.sender >= m.accounts.len() {
        Err(Reject::ZeroSender)
    } else {
        spec_admit(
            tx,
            m.env,
            m.pool,
            m.block_weight_limit,
            m.accounts[tx.sender as int],
            m.fees,
        )
    }
}

impl Node {
    pub open spec fn wf(&self) -> bool {
        self@.wf()
    }

    /// A fresh node at genesis: the given ledger, an empty chain, an
    /// empty pool, an idle scheduler and no cycles yet.
    pub fn new(
        mode: Consensus,
        spec_version: u32,
        tx_version: u32,
        genesis_hash: u64,
        accounts: Vec<Account>,
        fees: FeeParams,
        block_weight_limit: u64,
    ) -> (n: Node)
        ensures
            n.wf(),
            n@.mode == mode,
            n@.state == SchedulerState::Idle,
            n@.env == (ChainEnv { spec_version, tx_version, genesis_hash, block_height: 0 }),
            n@.fees == fees,
            n@.block_weight_limit == block_weight_limit,
            n@.accounts == accounts@,
            n@.blocks == Seq::<BlockModel>::empty(),
            n@.pool == Seq::<Transaction>::empty(),
            n@.cycles_started == 0,
            n@.cycles_completed == 0,
    {
        let n = Node {
            mode,
            state: SchedulerState::Idle,
            env: ChainEnv { spec_version, tx_version, genesis_hash, block_height: 0 },
            fees,
            block_weight_limit,
            accounts,
            blocks: Vec::new(),
            pool: TransactionPool::new(),
            cycles_started: 0,
            cycles_completed: 0,
        };
        proof {
            assert(n.blocks@.map_values(|b: Block| b@) =~= Seq::<BlockModel>::empty());
        }
        n
    }

    /// The hash of the current best head.
    pub fn head_hash(&self) -> (h: u64)
        ensures
            h == spec_head_hash(self@),
    {
        self.env.block_height
    }

    /// Resolves a sender identity against the ledger.
    pub fn lookup_account(&self, sender: u64) -> (a: Account)
        ensures
            a == account_of(self@.accounts, sender),
    {
        if sender < (self.accounts.len() as u64) {
            self.accounts[sender as usize]
        } else {
            Account { nonce: 0, balance: 0 }
        }
    }

    /// Validates a transaction through the pipeline and admits it to the
    /// pool. The outcome is returned synchronously to the submitter; a
    /// rejection changes nothing. In instant-seal mode a successful
    /// admission is the pool-readiness signal: the caller follows it
    /// with `on_transaction_ready`.
    pub fn submit_transaction(&mut self, tx: &Transaction) -> (r: Result<u64, Reject>)
        requires
            old(self).wf(),
        ensures
            final(self).wf(),
            r == spec_submit(old(self)@, *tx),
            r is Ok ==> final(self)@ == spec_admit_pool(old(self)@, *tx),
            r is Err ==> final(self)@ == old(self)@,
    {
        if tx.sender >= (self.accounts.len() as u64) {
            return Err(Reject::ZeroSender);
        }
        let acct = self.accounts[tx.sender as usize];
        let r = self.pool.submit(tx, &self.env, &acct, self.block_weight_limit, &self.fees);
        r
    }

    /// One full authoring cycle: idle to proposing to importing and back
    /// to idle, as `spec_seal` lays it down.
    pub fn seal_block(
        &mut self,
        create_empty: bool,
        finalize: bool,
        parent_hash: Option<u64>,
        now_ms: u64,
    ) -> (r: SealOutcome)
        requires
            old(self).wf(),
        ensures
            final(self).wf(),
            final(self)@ == spec_seal(old(self)@, create_empty, finalize, parent_hash, now_ms).0,
            r == spec_seal(old(self)@, create_empty, finalize, parent_hash, now_ms).1,
    {
        let ghost m = self@;
        match self.state {
            SchedulerState::Idle => {},
            _ => {
                return SealOutcome::NotAuthoring;
            },
        }
        if self.env.block_height == u64::MAX || self.cycles_started == u64::MAX {
            return SealOutcome::NotAuthoring;
        }
        let head = self.env.block_height;
        if let Some(h) = parent_hash {
            if h != head {
                self.cycles_started = self.cycles_started + 1;
                self.cycles_completed = self.cycles_completed + 1;
                return SealOutcome::UnknownParent;
            }
        }
        self.state = SchedulerState::Proposing;
        self.cycles_started = self.cycles_started + 1;
        let selection = select_transactions(
            self.pool.entries(),
            &self.env,
            &self.accounts,
            self.block_weight_limit,
            &self.fees,
        );
        let (included, _selected_accounts, _selected_remaining) = selection;
        proof {
            assert(self@.pool == m.pool);
        }
        if !create_empty && included.len() == 0 {
            self.state = SchedulerState::Idle;
            self.cycles_completed = self.cycles_completed + 1;
            return SealOutcome::NoTransactions;
        }
        self.state = SchedulerState::Importing;
        let number = self.env.block_height + 1;
        let block = Block {
            parent_hash: head,
            number,
            timestamp: now_ms,
            finalized: finalize,
            txs: included,
        };
        // The import path's own re-validation of the candidate.
        match replay_transactions(
            &block.txs,
            &self.env,
            &self.accounts,
            self.block_weight_limit,
            &self.fees,
        ) {
            Some(committed) => {
                proof {
                    lemma_select_replays(
                        m.pool,
                        m.env,
                        m.accounts,
                        m.block_weight_limit,
                        m.fees,
                    );
                }
                let (new_accounts, _remaining) = committed;
                self.accounts = new_accounts;
                self.blocks.push(block);
                self.env.block_height = number;
                self.pool.prune(&self.accounts);
                self.state = SchedulerState::Idle;
                self.cycles_completed = self.cycles_completed + 1;
                proof {
                    let sel = spec_select(m.pool, m.env, m.accounts, m.block_weight_limit, m.fees);
                    let goal = spec_seal(m, create_empty, finalize, parent_hash, now_ms).0;
                    assert(self.blocks@.map_values(|b: Block| b@) =~= m.blocks.push(block@));
                    assert(self@.blocks == goal.blocks);
                    assert(self@ == goal);
                }
                SealOutcome::Sealed { hash: number, finalized: finalize }
            },
            Option::None => {
                // Unreachable: what the proposer just selected replays
                // from the very state it was selected against.
                proof {
                    lemma_select_replays(
                        m.pool,
                        m.env,
                        m.accounts,
                        m.block_weight_limit,
                        m.fees,
                    );
                    assert(false);
                }
                SealOutcome::NotAuthoring
            },
        }
    }

    /// The pool-readiness signal of instant-seal mode.
    pub fn on_transaction_ready(&mut self, now_ms: u64) -> (r: SealOutcome)
        requires
            old(self).wf(),
        ensures
            final(self).wf(),
            final(self)@ == spec_on_transaction_ready(old(self)@, now_ms).0,
            r == spec_on_transaction_ready(old(self)@, now_ms).1,
    {
        match self.mode {
            Consensus::InstantSeal => self.seal_block(false, true, Option::None, now_ms),
            _ => SealOutcome::NotAuthoring,
        }
    }

    /// Consumes one seal command, in manual-seal mode.
    pub fn on_seal_command(&mut self, cmd: &SealCommand, now_ms: u64) -> (r: SealOutcome)
        requires
            old(self).wf(),
        ensures
            final(self).wf(),
            final(self)@ == spec_on_seal_command(old(self)@, *cmd, now_ms).0,
            r == spec_on_seal_command(old(self)@, *cmd, now_ms).1,
    {
        match self.mode {
            Consensus::ManualSeal(_) => self.seal_block(
                cmd.create_empty,
                cmd.finalize,
                cmd.parent_hash,
                now_ms,
            ),
            _ => SealOutcome::NotAuthoring,
        }
    }

    /// Tears the scheduler down; nothing authors afterwards.
    pub fn shutdown(&mut self)
        requires
            old(self).wf(),
        ensures
            final(self).wf(),
            final(self)@ == spec_shutdown(old(self)@),
    {
        self.state = SchedulerState::Stopped;
        self.cycles_completed = self.cycles_started;
    }

    /// Imports one block, own candidate or externally received: validate
    /// it against the head, replay its transactions, and commit it, or
    /// reject it whole with the reason.
    pub fn import_block(&mut self, block: Block) -> (r: Result<(), ImportError>)
        requires
            old(self).wf(),
        ensures
            final(self).wf(),
            final(self)@ == spec_import(old(self)@, block@).0,
            r == spec_import(old(self)@, block@).1,
    {
        let ghost m = self@;
        if block.parent_hash != self.env.block_height {
            return Err(ImportError::WrongParent);
        }
        if self.env.block_height == u64::MAX || block.number != self.env.block_height + 1 {
            return Err(ImportError::WrongNumber);
        }
        match replay_transactions(
            &block.txs,
            &self.env,
            &self.accounts,
            self.block_weight_limit,
            &self.fees,
        ) {
            Some(after) => {
                let (new_accounts, _remaining) = after;
                let number = block.number;
                self.accounts = new_accounts;
                let ghost bm = block@;
                self.blocks.push(block);
                self.env.block_height = number;
                self.pool.prune(&self.accounts);
                proof {
                    assert(self.blocks@.map_values(|b: Block| b@) =~= m.blocks.push(bm));
                    assert(self@ == spec_import(m, bm).0);
                }
                Ok(())
            },
            Option::None => Err(ImportError::InvalidTransactions),
        }
    }
}

/// The node after consuming a queue of seal commands front to back.
pub open spec fn spec_process_commands(m: NodeModel, cmds: Seq<SealCommand>, now_ms: u64) -> NodeModel
    decreases cmds.len(),
{
    if cmds.len() == 0 {
        m
    } else {
        spec_process_commands(spec_on_seal_command(m, cmds[0], now_ms).0, cmds.drop_first(), now_ms)
    }
}

/// The outcomes of consuming a queue of seal commands, in the commands'
/// own order.
pub open spec fn spec_command_outcomes(m: NodeModel, cmds: Seq<SealCommand>, now_ms: u64) -> Seq<
    SealOutcome,
>
    decreases cmds.len(),
{
    if cmds.len() == 0 {
        Seq::<SealOutcome>::empty()
    } else {
        seq![spec_on_seal_command(m, cmds[0], now_ms).1] + spec_command_outcomes(
            spec_on_seal_command(m, cmds[0], now_ms).0,
            cmds.drop_first(),
            now_ms,
        )
    }
}

impl Node {
    /// The manual-seal consumption loop: drains the channel and consumes
    /// every queued command strictly in arrival order, one cycle each,
    /// returning each command's outcome in that same order.
    pub fn drain_commands(&mut self, chan: &mut SealCommandChannel, now_ms: u64) -> (outcomes: Vec<
        SealOutcome,
    >)
        requires
            old(self).wf(),
        ensures
            final(self).wf(),
            channel_contents(*final(chan)).len() == 0,
            channel_buffer(*final(chan)) == channel_buffer(*old(chan)),
            final(self)@ == spec_process_commands(
                old(self)@,
                channel_contents(*old(chan)),
                now_ms,
            ),
            outcomes@ == spec_command_outcomes(old(self)@, channel_contents(*old(chan)), now_ms),
    {
        let ghost m0 = old(self)@;
        let ghost c0 = channel_contents(*old(chan));
        let mut outcomes: Vec<SealOutcome> = Vec::new();
        proof {
            assert(outcomes@ + spec_command_outcomes(self@, channel_contents(*chan), now_ms)
                =~= spec_command_outcomes(m0, c0, now_ms));
        }
        loop
            invariant
                self.wf(),
                m0 == old(self)@,
                c0 == channel_contents(*old(chan)),
                channel_buffer(*chan) == channel_buffer(*old(chan)),
                spec_process_commands(self@, channel_contents(*chan), now_ms)
                    == spec_process_commands(m0, c0, now_ms),
                outcomes@ + spec_command_outcomes(self@, channel_contents(*chan), now_ms)
                    == spec_command_outcomes(m0, c0, now_ms),
            ensures
                self.wf(),
                m0 == old(self)@,
                c0 == channel_contents(*old(chan)),
                channel_buffer(*chan) == channel_buffer(*old(chan)),
                channel_contents(*chan).len() == 0,
                self@ == spec_process_commands(m0, c0, now_ms),
                outcomes@ == spec_command_outcomes(m0, c0, now_ms),
            decreases channel_contents(*chan).len(),
        {
            let ghost before = channel_contents(*chan);
            let ghost mbefore = self@;
            match channel_try_recv(chan) {
                Some(cmd) => {
                    let out = self.on_seal_command(&cmd, now_ms);
                    outcomes.push(out);
                    proof {
                        assert(before[0] == cmd);
                        assert(channel_contents(*chan) == before.drop_first());
                        assert(outcomes@ + spec_command_outcomes(
                            self@,
                            channel_contents(*chan),
                            now_ms,
                        ) =~= outcomes@.drop_last() + (seq![out] + spec_command_outcomes(
                            self@,
                            channel_contents(*chan),
                            now_ms,
                        )));
                    }
                },
                Option::None => {
                    proof {
                        assert(channel_contents(*chan).len() == 0);
                        assert(outcomes@ =~= spec_command_outcomes(m0, c0, now_ms));
                    }
                    break ;
                },
            }
        }
        outcomes
    }
}

} // verus!
