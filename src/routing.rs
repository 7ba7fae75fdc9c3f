use crate::block::{Action, Transaction};
use crate::types::{is_zero_address, zero_address, Address};
use vstd::prelude::*;

verus! {

/// Where a transaction goes: the worker that runs it, and, when its sender
/// and target were bound to different workers, the worker that must first
/// hand its cached view of the sender over to `worker`.
#[derive(Clone, Copy, Debug, PartialEq, Eq)]
pub struct Assignment {
    pub worker: usize,
    pub migrate_from: Option<usize>,
}

/// The effective target of a transaction: the called address, or the zero
/// address for a contract creation.
pub open spec fn target_of(tx: Transaction) -> Address {
    match tx.action {
        Action::Create => zero_address(),
        Action::Call(a) => a,
    }
}

/// Whether sender and target are both known and bound to different workers.
pub open spec fn needs_migration(table: Map<Address, usize>, s: Address, t: Address) -> bool {
    table.contains_key(s) && table.contains_key(t) && table[s] != table[t]
}

/// The worker chosen for a transaction from `s` to `t`: the target's worker if
/// the target is known (alone, together with the sender on the same worker,
/// or against the sender's worker after a migration), else the sender's
/// worker if the sender is known, else the round-robin cursor `best`.
pub open spec fn route_worker(table: Map<Address, usize>, best: usize, s: Address, t: Address) -> usize {
    if table.contains_key(t) {
        table[t]
    } else if table.contains_key(s) {
        table[s]
    } else {
        best
    }
}

/// The assignment made for a transaction from `s` to `t`.
pub open spec fn route_assignment(table: Map<Address, usize>, best: usize, s: Address, t: Address) -> Assignment {
    Assignment {
        worker: route_worker(table, best, s, t),
        migrate_from: if needs_migration(table, s, t) { Some(table[s]) } else { None },
    }
}

/// The table after routing a transaction from `s` to `t`: each non-zero
/// address that was not known, and a migrated sender, now maps to the chosen
/// worker; every other entry is kept.
pub open spec fn route_table(table: Map<Address, usize>, best: usize, s: Address, t: Address) -> Map<Address, usize> {
    let w = route_worker(table, best, s, t);
    let m1 = if (!table.contains_key(s) || needs_migration(table, s, t)) && !is_zero_address(s) {
        table.insert(s, w)
    } else {
        table
    };
    if !table.contains_key(t) && !is_zero_address(t) {
        m1.insert(t, w)
    } else {
        m1
    }
}

/// The round-robin cursor after routing among `n` workers: it moves to the
/// next worker, wrapping around, exactly when the chosen worker is the cursor.
pub open spec fn route_best(table: Map<Address, usize>, best: usize, n: usize, s: Address, t: Address) -> usize {
    if route_worker(table, best, s, t) == best {
        ((best + 1) % (n as int)) as usize
    } else {
        best
    }
}

/// Routing the transactions of a block in order among `n` workers, starting
/// from `table` and cursor `best`: the assignments, the final table and the
/// final cursor.
pub open spec fn route_block(table: Map<Address, usize>, best: usize, n: usize, txs: Seq<Transaction>) -> (
    Seq<Assignment>,
    Map<Address, usize>,
    usize,
)
    decreases txs.len(),
{
    if txs.len() == 0 {
        (Seq::empty(), table, best)
    } else {
        let prev = route_block(table, best, n, txs.drop_last());
        let tx = txs.last();
        let s = tx.sender;
        let t = target_of(tx);
        (
            prev.0.push(route_assignment(prev.1, prev.2, s, t)),
            route_table(prev.1, prev.2, s, t),
            route_best(prev.1, prev.2, n, s, t),
        )
    }
}

/// Every worker id in the table is below `n`.
pub open spec fn workers_below(table: Map<Address, usize>, n: usize) -> bool {
    forall|a: Address| #[trigger] table.contains_key(a) ==> table[a] < n
}

} // verus!
