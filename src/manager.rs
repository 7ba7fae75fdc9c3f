use crate::block::{credits_of, env_for_header, Action, Block, Credit, EnvContext, Reward};
use crate::conflict::{detect_data_races, has_conflict, touched_view};
use crate::routing::{
    route_assignment, route_best, route_block, route_table, target_of, workers_below, Assignment,
};
use crate::table::DependencyTable;
use crate::types::{is_zero, zero, Address, Digest};
use std::sync::Arc;
use vstd::prelude::*;

verus! {

broadcast use vstd::array::group_array_axioms;

/// Where the scheduler stands in the processing of a block.
#[derive(Clone, Copy, Debug, PartialEq, Eq, Structural)]
pub enum Phase {
    /// Between blocks.
    Idle,
    /// A block was dispatched; the workers' results are awaited.
    Executing,
    /// Results were reconciled; a state must now be committed: the
    /// verification worker's if `fallback`, else the merged worker states.
    Committing { fallback: bool },
    /// The block's state is committed; the reward comes next.
    Rewarding,
    /// The reward's credits were handed out; their commit is awaited.
    RewardPending,
}

/// What a dispatched block asks of the workers: each transaction index goes,
/// in order, to `assignments[i].worker`, after the cache handoff that
/// `assignments[i].migrate_from` names, if any. `begin_verifier` says whether
/// the verification worker starts on the block now (eager policy).
pub struct BlockPlan {
    pub block: Arc<Block>,
    pub assignments: Vec<Assignment>,
    pub begin_verifier: bool,
}

/// How a block's speculative results are settled.
#[derive(Clone, Copy, Debug, PartialEq, Eq, Structural)]
pub enum Reconciliation {
    /// A conflict: the speculative states are discarded and the verification
    /// worker's state is committed. `begin_verifier` says that it has not run
    /// yet and must be started on the block now (on-demand policy).
    Fallback { begin_verifier: bool },
    /// No conflict: the workers' states are merged, in reverse worker order.
    /// `terminate_verifier` says that the verification worker's speculative
    /// run must be abandoned (eager policy).
    Merge { terminate_verifier: bool },
}

/// The scheduler: block and reward queues, the environment shared with the
/// workers, the persistent root, the dependency table and the round-robin
/// cursor over a pool of `threads` execution workers.
pub struct ParallelManager {
    blocks: Vec<Arc<Block>>,
    rewards: Vec<Reward>,
    current_env_info: EnvContext,
    state_root: Digest,
    dependency_table: DependencyTable,
    best_thread: usize,
    threads: usize,
    secure_on_demand: bool,
    phase: Phase,
}

impl ParallelManager {
    pub closed spec fn blocks(&self) -> Seq<Arc<Block>> {
        self.blocks@
    }

    pub closed spec fn rewards(&self) -> Seq<Reward> {
        self.rewards@
    }

    pub closed spec fn env(&self) -> EnvContext {
        self.current_env_info
    }

    pub closed spec fn root_spec(&self) -> Digest {
        self.state_root
    }

    pub closed spec fn table(&self) -> Map<Address, usize> {
        self.dependency_table@
    }

    pub closed spec fn best(&self) -> usize {
        self.best_thread
    }

    pub closed spec fn pool_size(&self) -> usize {
        self.threads
    }

    pub closed spec fn on_demand(&self) -> bool {
        self.secure_on_demand
    }

    pub closed spec fn phase_spec(&self) -> Phase {
        self.phase
    }

    /// The scheduler's invariant: table entries and the cursor name workers of
    /// the pool, and the table is empty between blocks.
    pub closed spec fn wf(&self) -> bool {
        &&& workers_below(self.dependency_table@, self.threads)
        &&& if self.threads == 0 { self.best_thread == 0 } else { self.best_thread < self.threads }
        &&& (self.phase == Phase::Idle ==> self.dependency_table@.dom() == Set::<Address>::empty())
    }

    /// A scheduler with an empty pool, empty queues, persistent root `root`
    /// and the given recent block hashes.
    pub fn new(root: Digest, last_hashes: Vec<Digest>, secure_on_demand: bool) -> (r: Self)
        ensures
            r.wf(),
            r.blocks().len() == 0,
            r.rewards().len() == 0,
            r.env().last_hashes@ == last_hashes@,
            r.root_spec() == root,
            r.table().dom() == Set::<Address>::empty(),
            r.best() == 0,
            r.pool_size() == 0,
            r.on_demand() == secure_on_demand,
            r.phase_spec() == Phase::Idle,
    {
        ParallelManager {
            blocks: Vec::new(),
            rewards: Vec::new(),
            current_env_info: EnvContext::new(last_hashes),
            state_root: root,
            dependency_table: DependencyTable::new(),
            best_thread: 0,
            threads: 0,
            secure_on_demand,
            phase: Phase::Idle,
        }
    }

    /// Every block starts from an empty dependency table: between blocks the
    /// table holds nothing, whatever the previous block left in it.
    pub proof fn lemma_idle_table_empty(&self)
        requires
            self.wf(),
            self.phase_spec() == Phase::Idle,
        ensures
            self.table().dom() == Set::<Address>::empty(),
    {
    }

    /// Grows the pool by `engines` workers, numbered after the existing ones.
    pub fn add_engines(&mut self, engines: usize)
        requires
            old(self).wf(),
            old(self).pool_size() + engines <= usize::MAX,
        ensures
            final(self).wf(),
            final(self).pool_size() == old(self).pool_size() + engines,
            final(self).blocks() == old(self).blocks(),
            final(self).rewards() == old(self).rewards(),
            final(self).env() == old(self).env(),
            final(self).root_spec() == old(self).root_spec(),
            final(self).table() == old(self).table(),
            final(self).best() == old(self).best(),
            final(self).on_demand() == old(self).on_demand(),
            final(self).phase_spec() == old(self).phase_spec(),
    {
        self.threads = self.threads + engines;
    }

    /// Chooses the worker for a transaction from `sender` to `to` (zero for a
    /// contract creation) and updates the table and the round-robin cursor.
    /// Called while a block is in flight, on a non-empty pool.
    pub fn get_exec_tid(&mut self, sender: &Address, to: &Address) -> (r: Assignment)
        requires
            old(self).wf(),
            old(self).pool_size() > 0,
            old(self).phase_spec() != Phase::Idle,
        ensures
            final(self).wf(),
            r == route_assignment(old(self).table(), old(self).best(), *sender, *to),
            r.worker < old(self).pool_size(),
            final(self).table() == route_table(old(self).table(), old(self).best(), *sender, *to),
            final(self).best() == route_best(old(self).table(), old(self).best(), old(self).pool_size(), *sender, *to),
            final(self).blocks() == old(self).blocks(),
            final(self).rewards() == old(self).rewards(),
            final(self).env() == old(self).env(),
            final(self).root_spec() == old(self).root_spec(),
            final(self).pool_size() == old(self).pool_size(),
            final(self).on_demand() == old(self).on_demand(),
            final(self).phase_spec() == old(self).phase_spec(),
    {
        let ghost t0 = self.dependency_table@;
        let sender_tid = self.dependency_table.get(sender);
        let to_tid = self.dependency_table.get(to);
        let mut insert_sender = sender_tid.is_none();
        let insert_to = to_tid.is_none();
        let mut migrate_from: Option<usize> = None;
        let exec_tid: usize = match (sender_tid, to_tid) {
            (_, Some(t1)) => {
                if let Some(t0s) = sender_tid {
                    if t0s != t1 {
                        // The sender's worker hands its cache of the sender to
                        // the target's worker, which then owns the sender.
                        migrate_from = Some(t0s);
                        insert_sender = true;
                    }
                }
                t1
            },
            (Some(t0s), None) => t0s,
            (None, None) => self.best_thread,
        };
        if insert_sender && !is_zero(sender) {
            self.dependency_table.insert(*sender, exec_tid);
        }
        if insert_to && !is_zero(to) {
            self.dependency_table.insert(*to, exec_tid);
        }
        if self.best_thread == exec_tid {
            self.best_thread = (self.best_thread + 1) % self.threads;
        }
        Assignment { worker: exec_tid, migrate_from }
    }

    /// Queues a block with no reward of its own.
    pub fn push_block(&mut self, block: Block)
        requires
            old(self).wf(),
        ensures
            final(self).wf(),
            final(self).blocks() == old(self).blocks().push(Arc::new(block)),
            final(self).rewards() == old(self).rewards(),
            final(self).unchanged_but_queues(*old(self)),
    {
        self.blocks.push(Arc::new(block));
    }

    /// Queues a shared block with no reward of its own.
    pub fn push_block_arc(&mut self, block: Arc<Block>)
        requires
            old(self).wf(),
        ensures
            final(self).wf(),
            final(self).blocks() == old(self).blocks().push(block),
            final(self).rewards() == old(self).rewards(),
            final(self).unchanged_but_queues(*old(self)),
    {
        self.blocks.push(block);
    }

    /// Queues a shared block and a reward.
    pub fn push_block_and_reward_arc(&mut self, block: Arc<Block>, reward: Reward)
        requires
            old(self).wf(),
        ensures
            final(self).wf(),
            final(self).blocks() == old(self).blocks().push(block),
            final(self).rewards() == old(self).rewards().push(reward),
            final(self).unchanged_but_queues(*old(self)),
    {
        self.blocks.push(block);
        self.rewards.push(reward);
    }

    /// Replaces both queues.
    pub fn assign_block_and_reward_arc(&mut self, blocks: Vec<Arc<Block>>, rewards: Vec<Reward>)
        requires
            old(self).wf(),
        ensures
            final(self).wf(),
            final(self).blocks() == blocks@,
            final(self).rewards() == rewards@,
            final(self).unchanged_but_queues(*old(self)),
    {
        self.blocks = blocks;
        self.rewards = rewards;
    }

    /// Queues a block and a reward.
    pub fn push_block_and_reward(&mut self, block: Block, reward: Reward)
        requires
            old(self).wf(),
        ensures
            final(self).wf(),
            final(self).blocks() == old(self).blocks().push(Arc::new(block)),
            final(self).rewards() == old(self).rewards().push(reward),
            final(self).unchanged_but_queues(*old(self)),
    {
        self.blocks.push(Arc::new(block));
        self.rewards.push(reward);
    }

    /// Everything but the two queues is as in `o`.
    pub open spec fn unchanged_but_queues(&self, o: Self) -> bool {
        &&& self.env() == o.env()
        &&& self.root_spec() == o.root_spec()
        &&& self.table() == o.table()
        &&& self.best() == o.best()
        &&& self.pool_size() == o.pool_size()
        &&& self.on_demand() == o.on_demand()
        &&& self.phase_spec() == o.phase_spec()
    }

    /// Starts the next queued block, if any: the environment takes over its
    /// header, and its transactions are routed in order, from an empty table,
    /// onto the pool. With an empty pool nothing is routed: the block will
    /// be settled by the verification worker.
    pub fn step_one_block(&mut self) -> (r: Option<BlockPlan>)
        requires
            old(self).wf(),
            old(self).phase_spec() == Phase::Idle,
        ensures
            final(self).wf(),
            old(self).blocks().len() == 0 ==> r.is_none() && *final(self) == *old(self),
            old(self).blocks().len() > 0 ==> r.is_some() && ({
                let plan = r.unwrap();
                let txs = plan.block.transactions@;
                &&& plan.block == old(self).blocks()[0]
                &&& final(self).blocks() == old(self).blocks().subrange(1, old(self).blocks().len() as int)
                &&& final(self).env() == env_for_header(old(self).env(), plan.block.header)
                &&& plan.begin_verifier == !old(self).on_demand()
                &&& if old(self).pool_size() == 0 {
                    &&& plan.assignments@.len() == 0
                    &&& final(self).table().dom() == Set::<Address>::empty()
                    &&& final(self).best() == old(self).best()
                } else {
                    (plan.assignments@, final(self).table(), final(self).best())
                        == route_block(Map::empty(), old(self).best(), old(self).pool_size(), txs)
                }
                &&& final(self).phase_spec() == Phase::Executing
                &&& final(self).rewards() == old(self).rewards()
                &&& final(self).root_spec() == old(self).root_spec()
                &&& final(self).pool_size() == old(self).pool_size()
                &&& final(self).on_demand() == old(self).on_demand()
            }),
    {
        if self.blocks.len() == 0 {
            return None;
        }
        let block = self.blocks.remove(0);
        self.current_env_info.update_from_header(&block.header);
        self.phase = Phase::Executing;
        let mut assignments: Vec<Assignment> = Vec::new();
        if self.threads > 0 {
            let ghost best0 = self.best_thread;
            let ghost blocks1 = self.blocks@;
            let ghost env1 = self.current_env_info;
            let txs = &block.transactions;
            assert(self.dependency_table@ =~= Map::<Address, usize>::empty());
            let mut i: usize = 0;
            while i < txs.len()
                invariant
                    self.wf(),
                    self.threads > 0,
                    self.phase == Phase::Executing,
                    self.blocks@ == blocks1,
                    self.current_env_info == env1,
                    self.rewards@ == old(self).rewards@,
                    self.state_root == old(self).state_root,
                    self.threads == old(self).threads,
                    self.secure_on_demand == old(self).secure_on_demand,
                    0 <= i <= txs@.len(),
                    (assignments@, self.dependency_table@, self.best_thread)
                        == route_block(Map::empty(), best0, self.threads, txs@.subrange(0, i as int)),
                decreases txs@.len() - i,
            {
                let tx = &txs[i];
                let to = match tx.action {
                    Action::Create => zero(),
                    Action::Call(a) => a,
                };
                assert(to == target_of(*tx));
                let a = self.get_exec_tid(&tx.sender, &to);
                assignments.push(a);
                proof {
                    let pre = txs@.subrange(0, i + 1);
                    assert(pre.drop_last() =~= txs@.subrange(0, i as int));
                    assert(pre.last() == txs@[i as int]);
                }
                i = i + 1;
            }
            assert(txs@.subrange(0, txs@.len() as int) =~= txs@);
        }
        Some(BlockPlan { block, assignments, begin_verifier: !self.secure_on_demand })
    }

    /// Settles the dispatched block from the addresses that each worker, in
    /// worker order, reports having touched. A data race, and an empty pool,
    /// send the block to the verification worker; otherwise the workers'
    /// states are to be merged.
    pub fn reconcile(&mut self, touched: &Vec<Vec<Address>>) -> (r: Reconciliation)
        requires
            old(self).wf(),
            old(self).phase_spec() == Phase::Executing,
            touched@.len() == old(self).pool_size(),
        ensures
            final(self).wf(),
            (r is Fallback) == (old(self).pool_size() == 0 || has_conflict(old(self).table(), touched_view(touched@))),
            r is Fallback ==> r == (Reconciliation::Fallback { begin_verifier: old(self).on_demand() }),
            r is Merge ==> r == (Reconciliation::Merge { terminate_verifier: !old(self).on_demand() }),
            final(self).phase_spec() == (Phase::Committing { fallback: r is Fallback }),
            final(self).blocks() == old(self).blocks(),
            final(self).rewards() == old(self).rewards(),
            final(self).env() == old(self).env(),
            final(self).root_spec() == old(self).root_spec(),
            final(self).best() == old(self).best(),
            final(self).pool_size() == old(self).pool_size(),
            final(self).on_demand() == old(self).on_demand(),
    {
        let races = detect_data_races(&mut self.dependency_table, touched);
        self.phase = Phase::Committing { fallback: races };
        if races {
            Reconciliation::Fallback { begin_verifier: self.secure_on_demand }
        } else {
            Reconciliation::Merge { terminate_verifier: !self.secure_on_demand }
        }
    }

    /// Records `root`, the persistent root after the verification worker's
    /// state was committed.
    pub fn apply_secure(&mut self, root: Digest)
        requires
            old(self).wf(),
            old(self).phase_spec() == (Phase::Committing { fallback: true }),
        ensures
            final(self).wf(),
            final(self).root_spec() == root,
            final(self).phase_spec() == Phase::Rewarding,
            final(self).blocks() == old(self).blocks(),
            final(self).rewards() == old(self).rewards(),
            final(self).env() == old(self).env(),
            final(self).table() == old(self).table(),
            final(self).best() == old(self).best(),
            final(self).pool_size() == old(self).pool_size(),
            final(self).on_demand() == old(self).on_demand(),
    {
        self.state_root = root;
        self.phase = Phase::Rewarding;
    }

    /// Records `root`, the persistent root after the workers' states were
    /// merged.
    pub fn apply_states(&mut self, root: Digest)
        requires
            old(self).wf(),
            old(self).phase_spec() == (Phase::Committing { fallback: false }),
        ensures
            final(self).wf(),
            final(self).root_spec() == root,
            final(self).phase_spec() == Phase::Rewarding,
            final(self).blocks() == old(self).blocks(),
            final(self).rewards() == old(self).rewards(),
            final(self).env() == old(self).env(),
            final(self).table() == old(self).table(),
            final(self).best() == old(self).best(),
            final(self).pool_size() == old(self).pool_size(),
            final(self).on_demand() == old(self).on_demand(),
    {
        self.state_root = root;
        self.phase = Phase::Rewarding;
    }

    /// Takes the next queued reward, if any, and hands out its credits, miner
    /// first. Without a reward the block is finished here: the table is
    /// cleared and the scheduler is idle.
    pub fn apply_reward(&mut self) -> (r: Option<Vec<Credit>>)
        requires
            old(self).wf(),
            old(self).phase_spec() == Phase::Rewarding,
        ensures
            final(self).wf(),
            old(self).rewards().len() == 0 ==> {
                &&& r.is_none()
                &&& final(self).phase_spec() == Phase::Idle
                &&& final(self).table().dom() == Set::<Address>::empty()
                &&& final(self).rewards() == old(self).rewards()
            },
            old(self).rewards().len() > 0 ==> {
                &&& r.is_some()
                &&& r.unwrap()@ == credits_of(old(self).rewards()[0])
                &&& final(self).phase_spec() == Phase::RewardPending
                &&& final(self).table() == old(self).table()
                &&& final(self).rewards() == old(self).rewards().subrange(1, old(self).rewards().len() as int)
            },
            final(self).blocks() == old(self).blocks(),
            final(self).env() == old(self).env(),
            final(self).root_spec() == old(self).root_spec(),
            final(self).best() == old(self).best(),
            final(self).pool_size() == old(self).pool_size(),
            final(self).on_demand() == old(self).on_demand(),
    {
        if self.rewards.len() == 0 {
            self.dependency_table.clear();
            self.phase = Phase::Idle;
            return None;
        }
        let reward = self.rewards.remove(0);
        self.phase = Phase::RewardPending;
        Some(reward.credits())
    }

    /// Records `root`, the persistent root after the reward's credits were
    /// committed, and finishes the block: the table is cleared.
    pub fn commit_reward(&mut self, root: Digest)
        requires
            old(self).wf(),
            old(self).phase_spec() == Phase::RewardPending,
        ensures
            final(self).wf(),
            final(self).root_spec() == root,
            final(self).phase_spec() == Phase::Idle,
            final(self).table().dom() == Set::<Address>::empty(),
            final(self).blocks() == old(self).blocks(),
            final(self).rewards() == old(self).rewards(),
            final(self).env() == old(self).env(),
            final(self).best() == old(self).best(),
            final(self).pool_size() == old(self).pool_size(),
            final(self).on_demand() == old(self).on_demand(),
    {
        self.state_root = root;
        self.dependency_table.clear();
        self.phase = Phase::Idle;
    }

    /// The order in which the workers' states are merged when no conflict was
    /// found: reverse worker order.
    pub fn merge_order(&self) -> (r: Vec<usize>)
        ensures
            r@.len() == self.pool_size(),
            forall|i: int| 0 <= i < r@.len() ==> r@[i] == self.pool_size() - 1 - i,
    {
        let mut out: Vec<usize> = Vec::new();
        let mut k: usize = self.threads;
        while k > 0
            invariant
                k <= self.threads,
                out@.len() == self.threads - k,
                forall|i: int| 0 <= i < out@.len() ==> out@[i] == self.threads - 1 - i,
            decreases k,
        {
            k = k - 1;
            out.push(k);
        }
        out
    }

    /// The persistent root.
    pub fn state_root(&self) -> (r: &Digest)
        ensures
            *r == self.root_spec(),
    {
        &self.state_root
    }

    /// The persistent root, by value.
    pub fn root(&self) -> (r: Digest)
        ensures
            r == self.root_spec(),
    {
        self.state_root
    }

    /// Where the scheduler stands in the current block.
    pub fn phase(&self) -> (r: Phase)
        ensures
            r == self.phase_spec(),
    {
        self.phase
    }

    /// The number of execution workers.
    pub fn threads(&self) -> (r: usize)
        ensures
            r == self.pool_size(),
    {
        self.threads
    }

    /// Whether the verification worker runs only after a conflict.
    pub fn secure_on_demand(&self) -> (r: bool)
        ensures
            r == self.on_demand(),
    {
        self.secure_on_demand
    }

    /// The environment shared with the workers.
    pub fn env_info(&self) -> (r: &EnvContext)
        ensures
            *r == self.env(),
    {
        &self.current_env_info
    }
}

} // verus!
