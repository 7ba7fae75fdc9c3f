use crate::block::{Action, Transaction};
use crate::conflict::{conflicting, has_conflict};
use crate::routing::{route_assignment, route_best, route_block, route_table};
use crate::types::{is_zero_address, Address};
use vstd::prelude::*;

verus! {

/// A transfer from `s` to `t`.
pub open spec fn transfer(s: Address, t: Address) -> Transaction {
    Transaction { sender: s, action: Action::Call(t) }
}

/// A chain of transfers `a -> b`, `b -> c`, `c -> d`, routed in order over
/// addresses that the table does not hold, lands entirely on one worker,
/// with no cache migration.
pub proof fn lemma_transfer_chain_one_worker(
    table: Map<Address, usize>,
    best: usize,
    n: usize,
    a: Address,
    b: Address,
    c: Address,
    d: Address,
)
    requires
        n > 0,
        best < n,
        !table.contains_key(a),
        !table.contains_key(b),
        !table.contains_key(c),
        !table.contains_key(d),
        !is_zero_address(a),
        !is_zero_address(b),
        !is_zero_address(c),
        !is_zero_address(d),
    ensures
        ({
            let r = route_block(table, best, n, seq![transfer(a, b), transfer(b, c), transfer(c, d)]).0;
            &&& r.len() == 3
            &&& r[0].worker == best
            &&& r[1].worker == best
            &&& r[2].worker == best
            &&& r[0].migrate_from.is_none()
            &&& r[1].migrate_from.is_none()
            &&& r[2].migrate_from.is_none()
        }),
{
    let txs = seq![transfer(a, b), transfer(b, c), transfer(c, d)];
    assert(txs.drop_last() =~= seq![transfer(a, b), transfer(b, c)]);
    assert(txs.drop_last().drop_last() =~= seq![transfer(a, b)]);
    assert(txs.drop_last().drop_last().drop_last() =~= Seq::<Transaction>::empty());
    reveal_with_fuel(route_block, 4);
    let t1 = route_table(table, best, a, b);
    let b1 = route_best(table, best, n, a, b);
    let t2 = route_table(t1, b1, b, c);
    assert(t1.contains_key(b) && t1[b] == best);
    assert(t2.contains_key(c) && t2[c] == best);
}

/// A transaction whose sender and target are bound to different workers is
/// run on the target's worker after one cache migration from the sender's
/// worker; a following transaction from the same sender, whose target is the
/// sender itself, unbound, or bound to that same worker, runs there too
/// without another migration.
pub proof fn lemma_migration_once(
    table: Map<Address, usize>,
    best: usize,
    n: usize,
    s: Address,
    t: Address,
    u: Address,
)
    requires
        n > 0,
        table.contains_key(s),
        table.contains_key(t),
        table[s] != table[t],
        !is_zero_address(s),
        u == s || !table.contains_key(u) || table[u] == table[t],
    ensures
        route_assignment(table, best, s, t).worker == table[t],
        route_assignment(table, best, s, t).migrate_from == Some(table[s]),
        ({
            let t1 = route_table(table, best, s, t);
            let b1 = route_best(table, best, n, s, t);
            &&& route_assignment(t1, b1, s, u).worker == table[t]
            &&& route_assignment(t1, b1, s, u).migrate_from.is_none()
        }),
{
    let t1 = route_table(table, best, s, t);
    assert(t1.contains_key(s) && t1[s] == table[t]);
    assert(t1.contains_key(t) && t1[t] == table[t]);
}

/// When two different workers both report touching the same address, the
/// block's touched sets conflict.
pub proof fn lemma_shared_address_conflicts(
    table: Map<Address, usize>,
    touched: Seq<Seq<Address>>,
    i: int,
    j: int,
    a: Address,
)
    requires
        0 <= i < touched.len(),
        0 <= j < touched.len(),
        i != j,
        touched[i].contains(a),
        touched[j].contains(a),
    ensures
        has_conflict(table, touched),
{
    let k = choose|k: int| 0 <= k < touched[i].len() && touched[i][k] == a;
    assert(conflicting(table, touched, i, touched[i][k]));
}

} // verus!
