use parallel_evm::block::{Action, Block, Credit, Header, Reward, Transaction};
use parallel_evm::conflict::detect_data_races;
use parallel_evm::manager::{ParallelManager, Phase, Reconciliation};
use parallel_evm::routing::Assignment;
use parallel_evm::table::DependencyTable;
use parallel_evm::types::{is_zero, zero, Address};
use std::sync::Arc;

fn addr(b: u8) -> Address {
    let mut a = [0u8; 20];
    a[19] = b;
    a[0] = 0xaa;
    a
}

fn word(v: u64) -> [u64; 4] {
    [v, 0, 0, 0]
}

fn header(number: u64) -> Header {
    Header {
        number,
        author: addr(200),
        timestamp: 1000 + number,
        difficulty: word(7),
        gas_limit: word(8_000_000),
        parent_hash: [3u8; 32],
    }
}

fn call(s: Address, t: Address) -> Transaction {
    Transaction { sender: s, action: Action::Call(t) }
}

fn block(number: u64, txs: Vec<Transaction>) -> Block {
    Block { header: header(number), transactions: txs }
}

fn at(worker: usize) -> Assignment {
    Assignment { worker, migrate_from: None }
}

fn manager(pool: usize, on_demand: bool) -> ParallelManager {
    let mut m = ParallelManager::new([9u8; 32], vec![[1u8; 32], [2u8; 32]], on_demand);
    m.add_engines(pool);
    m
}

#[test]
fn three_transfers_on_two_workers() {
    let mut m = manager(2, true);
    let (s1, t1, s2, t2, s3) = (addr(1), addr(2), addr(3), addr(4), addr(5));
    m.push_block(block(1, vec![call(s1, t1), call(s2, t2), call(t1, s3)]));
    let plan = m.step_one_block().unwrap();
    assert_eq!(plan.assignments, vec![at(0), at(1), at(0)]);
    assert!(!plan.begin_verifier);
    assert_eq!(m.phase(), Phase::Executing);
}

#[test]
fn empty_pool_always_falls_back() {
    let mut m = manager(0, true);
    m.push_block(block(1, vec![call(addr(1), addr(2)), call(addr(3), addr(4))]));
    let plan = m.step_one_block().unwrap();
    assert!(plan.assignments.is_empty());
    let r = m.reconcile(&vec![]);
    assert_eq!(r, Reconciliation::Fallback { begin_verifier: true });
    assert_eq!(m.phase(), Phase::Committing { fallback: true });
}

#[test]
fn empty_pool_eager_policy_does_not_restart_verifier() {
    let mut m = manager(0, false);
    m.push_block(block(1, vec![call(addr(1), addr(2))]));
    let plan = m.step_one_block().unwrap();
    assert!(plan.begin_verifier);
    assert_eq!(m.reconcile(&vec![]), Reconciliation::Fallback { begin_verifier: false });
}

#[test]
fn transfer_chain_stays_on_one_worker() {
    let mut m = manager(3, true);
    let (a, b, c, d) = (addr(1), addr(2), addr(3), addr(4));
    m.push_block(block(1, vec![call(a, b), call(b, c), call(c, d)]));
    let plan = m.step_one_block().unwrap();
    assert_eq!(plan.assignments, vec![at(0), at(0), at(0)]);
}

#[test]
fn migration_happens_once() {
    let mut m = manager(2, true);
    let (s1, t1, s2, t2, x) = (addr(1), addr(2), addr(3), addr(4), addr(5));
    m.push_block(block(1, vec![call(s1, t1), call(s2, t2), call(s1, t2), call(s1, x)]));
    let plan = m.step_one_block().unwrap();
    assert_eq!(
        plan.assignments,
        vec![at(0), at(1), Assignment { worker: 1, migrate_from: Some(0) }, at(1)]
    );
}

#[test]
fn contract_creation_routes_by_sender() {
    let mut m = manager(2, true);
    let s = addr(1);
    m.push_block(block(
        1,
        vec![
            call(s, addr(2)),
            Transaction { sender: s, action: Action::Create },
            Transaction { sender: addr(3), action: Action::Create },
            Transaction { sender: addr(4), action: Action::Create },
        ],
    ));
    let plan = m.step_one_block().unwrap();
    assert_eq!(plan.assignments, vec![at(0), at(0), at(1), at(0)]);
}

#[test]
fn get_exec_tid_levels() {
    let mut m = manager(3, true);
    m.push_block(block(1, vec![]));
    m.step_one_block().unwrap();
    let (a, b, c, d) = (addr(1), addr(2), addr(3), addr(4));
    assert_eq!(m.get_exec_tid(&a, &b), at(0));
    assert_eq!(m.get_exec_tid(&c, &d), at(1));
    // only the target known
    assert_eq!(m.get_exec_tid(&addr(9), &b), at(0));
    // both known, same worker
    assert_eq!(m.get_exec_tid(&a, &b), at(0));
    // both known, different workers
    assert_eq!(m.get_exec_tid(&a, &d), Assignment { worker: 1, migrate_from: Some(0) });
    // neither known: the cursor, now at 2
    assert_eq!(m.get_exec_tid(&addr(10), &addr(11)), at(2));
    // cursor wrapped around to 0
    assert_eq!(m.get_exec_tid(&addr(12), &addr(13)), at(0));
}

#[test]
fn shared_touched_address_is_a_conflict() {
    let mut m = manager(2, true);
    m.push_block(block(1, vec![call(addr(1), addr(2)), call(addr(3), addr(4))]));
    m.step_one_block().unwrap();
    let r = m.reconcile(&vec![vec![addr(1), addr(7)], vec![addr(3), addr(7)]]);
    assert_eq!(r, Reconciliation::Fallback { begin_verifier: true });
    m.apply_secure([5u8; 32]);
    assert_eq!(m.root(), [5u8; 32]);
}

#[test]
fn touching_another_workers_address_is_a_conflict() {
    let mut m = manager(2, false);
    m.push_block(block(1, vec![call(addr(1), addr(2)), call(addr(3), addr(4))]));
    m.step_one_block().unwrap();
    let r = m.reconcile(&vec![vec![addr(1)], vec![addr(3), addr(2)]]);
    assert_eq!(r, Reconciliation::Fallback { begin_verifier: false });
}

#[test]
fn disjoint_touched_sets_merge() {
    let mut m = manager(2, false);
    m.push_block(block(1, vec![call(addr(1), addr(2)), call(addr(3), addr(4))]));
    m.step_one_block().unwrap();
    let r = m.reconcile(&vec![vec![addr(1), addr(2), addr(8)], vec![addr(3), addr(4), addr(9)]]);
    assert_eq!(r, Reconciliation::Merge { terminate_verifier: true });
    assert_eq!(m.phase(), Phase::Committing { fallback: false });
    m.apply_states([6u8; 32]);
    assert_eq!(*m.state_root(), [6u8; 32]);
    assert_eq!(m.phase(), Phase::Rewarding);
}

#[test]
fn table_is_empty_at_each_block_start() {
    let mut m = manager(2, true);
    let (a, b) = (addr(1), addr(2));
    m.push_block(block(1, vec![call(a, b)]));
    m.push_block(block(2, vec![call(a, b)]));
    let plan = m.step_one_block().unwrap();
    assert_eq!(plan.assignments, vec![at(0)]);
    m.reconcile(&vec![vec![a, b], vec![]]);
    m.apply_states([1u8; 32]);
    assert!(m.apply_reward().is_none());
    assert_eq!(m.phase(), Phase::Idle);
    // a and b were bound to worker 0; the cleared table routes by the cursor
    let plan = m.step_one_block().unwrap();
    assert_eq!(plan.assignments, vec![at(1)]);
}

#[test]
fn reward_credits_miner_then_uncles() {
    let mut m = manager(1, true);
    let reward = Reward {
        miner: Credit { address: addr(50), amount: word(5) },
        uncles: vec![
            Credit { address: addr(51), amount: word(3) },
            Credit { address: addr(52), amount: word(2) },
        ],
    };
    m.push_block_and_reward(block(1, vec![call(addr(1), addr(2))]), reward);
    m.step_one_block().unwrap();
    m.reconcile(&vec![vec![addr(1), addr(2)]]);
    m.apply_states([1u8; 32]);
    let credits = m.apply_reward().unwrap();
    let got: Vec<(Address, [u64; 4])> = credits.iter().map(|c| (c.address, c.amount)).collect();
    assert_eq!(got, vec![(addr(50), word(5)), (addr(51), word(3)), (addr(52), word(2))]);
    assert_eq!(m.phase(), Phase::RewardPending);
    m.commit_reward([4u8; 32]);
    assert_eq!(m.root(), [4u8; 32]);
    assert_eq!(m.phase(), Phase::Idle);
}

#[test]
fn empty_queue_is_a_no_op() {
    let mut m = manager(2, true);
    assert!(m.step_one_block().is_none());
    assert_eq!(m.phase(), Phase::Idle);
    assert_eq!(m.root(), [9u8; 32]);
}

#[test]
fn queues_are_first_in_first_out() {
    let mut m = manager(1, true);
    m.push_block_arc(Arc::new(block(11, vec![])));
    m.push_block_and_reward_arc(
        Arc::new(block(12, vec![])),
        Reward { miner: Credit { address: addr(60), amount: word(1) }, uncles: vec![] },
    );
    let plan = m.step_one_block().unwrap();
    assert_eq!(plan.block.header.number, 11);
    assert_eq!(m.env_info().number, 11);
    assert_eq!(m.env_info().timestamp, 1011);
    assert_eq!(m.env_info().gas_limit, word(8_000_000));
    assert_eq!(m.env_info().last_hashes, vec![[1u8; 32], [2u8; 32]]);
    m.reconcile(&vec![vec![]]);
    m.apply_states([1u8; 32]);
    let credits = m.apply_reward().unwrap();
    assert_eq!(credits[0].address, addr(60));
    m.commit_reward([2u8; 32]);
    let plan = m.step_one_block().unwrap();
    assert_eq!(plan.block.header.number, 12);
}

#[test]
fn assign_replaces_queues() {
    let mut m = manager(1, true);
    m.push_block(block(1, vec![]));
    m.assign_block_and_reward_arc(vec![Arc::new(block(5, vec![]))], vec![]);
    assert_eq!(m.step_one_block().unwrap().block.header.number, 5);
    assert!(m.threads() == 1 && m.secure_on_demand());
}

#[test]
fn detect_data_races_records_first_toucher() {
    let mut t = DependencyTable::new();
    t.insert(addr(1), 0);
    assert!(!detect_data_races(&mut t, &vec![vec![addr(1), addr(2)], vec![addr(3)]]));
    assert_eq!(t.get(&addr(2)), Some(0));
    assert_eq!(t.get(&addr(3)), Some(1));
    assert!(detect_data_races(&mut t, &vec![vec![addr(3)], vec![]]));
    assert!(detect_data_races(&mut t, &vec![]));
}

#[test]
fn dependency_table_entries() {
    let mut t = DependencyTable::new();
    assert_eq!(t.get(&addr(1)), None);
    t.insert(addr(1), 4);
    t.insert(addr(1), 2);
    t.insert(addr(3), 7);
    assert_eq!(t.get(&addr(1)), Some(2));
    assert_eq!(t.get(&addr(3)), Some(7));
    t.clear();
    assert_eq!(t.get(&addr(3)), None);
}

#[test]
fn zero_address_checks() {
    assert!(is_zero(&zero()));
    assert!(!is_zero(&addr(1)));
    let mut a = [0u8; 20];
    a[19] = 1;
    assert!(!is_zero(&a));
}

#[test]
fn reward_credit_list() {
    let r = Reward { miner: Credit { address: addr(1), amount: word(9) }, uncles: vec![] };
    let c = r.credits();
    assert_eq!(c.len(), 1);
    assert_eq!(c[0].amount, word(9));
}

#[test]
fn merge_order_is_reverse_worker_order() {
    let m = manager(3, true);
    assert_eq!(m.merge_order(), vec![2, 1, 0]);
    assert!(manager(0, true).merge_order().is_empty());
}
