use crate::table::DependencyTable;
use crate::types::Address;
use vstd::prelude::*;

verus! {

/// The touched-address sets reported by the workers, as sequences.
pub open spec fn touched_view(touched: Seq<Vec<Address>>) -> Seq<Seq<Address>> {
    touched.map_values(|v: Vec<Address>| v@)
}

/// Whether address `a`, touched by worker `i`, is a conflict: the table binds
/// it to another worker, or another worker touched it too.
pub open spec fn conflicting(table: Map<Address, usize>, touched: Seq<Seq<Address>>, i: int, a: Address) -> bool {
    (table.contains_key(a) && table[a] != i)
        || exists|j: int| 0 <= j < touched.len() && j != i && #[trigger] touched[j].contains(a)
}

/// Whether the workers' touched sets conflict with each other or with the
/// table's bindings.
pub open spec fn has_conflict(table: Map<Address, usize>, touched: Seq<Seq<Address>>) -> bool {
    exists|i: int, k: int|
        0 <= i < touched.len() && 0 <= k < touched[i].len() && conflicting(table, touched, i, #[trigger] touched[i][k])
}

/// Checks the addresses touched by each worker, in worker order, against the
/// table, recording each newly seen address for the worker that touched it.
/// Reports a data race when no worker reported, or when an address is found
/// bound to another worker. New entries name workers below `touched.len()`.
pub fn detect_data_races(table: &mut DependencyTable, touched: &Vec<Vec<Address>>) -> (r: bool)
    ensures
        r == (touched@.len() == 0 || has_conflict(old(table)@, touched_view(touched@))),
        forall|a: Address| #[trigger] old(table)@.contains_key(a) ==> final(table)@.contains_key(a) && final(table)@[a] == old(table)@[a],
        forall|a: Address| #[trigger] final(table)@.contains_key(a) && !old(table)@.contains_key(a) ==> final(table)@[a] < touched@.len(),
{
    let ghost t0 = table@;
    let ghost tv = touched_view(touched@);
    let n = touched.len();
    if n == 0 {
        return true;
    }
    let mut race = false;
    let mut i: usize = 0;
    while i < n && !race
        invariant
            n == touched@.len(),
            tv == touched_view(touched@),
            0 <= i <= n,
            forall|a: Address| #[trigger] t0.contains_key(a) ==> table@.contains_key(a) && table@[a] == t0[a],
            forall|a: Address| #[trigger] table@.contains_key(a) ==> t0.contains_key(a) || ((table@[a] < i || (race && table@[a] == i)) && tv[table@[a] as int].contains(a)),
            !race ==> forall|j: int, k: int| 0 <= j < i && 0 <= k < tv[j].len() ==> table@.contains_key(#[trigger] tv[j][k]) && table@[tv[j][k]] == j,
            race ==> has_conflict(t0, tv) && i < n,
        decreases n - i + (if race { 0int } else { 1int }),
    {
        let addrs = &touched[i];
        assert(addrs@ == tv[i as int]);
        let mut k: usize = 0;
        while k < addrs.len() && !race
            invariant
                n == touched@.len(),
                tv == touched_view(touched@),
                addrs@ == tv[i as int],
                0 <= i < n,
                0 <= k <= addrs@.len(),
                forall|a: Address| #[trigger] t0.contains_key(a) ==> table@.contains_key(a) && table@[a] == t0[a],
                forall|a: Address| #[trigger] table@.contains_key(a) ==> t0.contains_key(a) || (table@[a] <= i && tv[table@[a] as int].contains(a)),
                !race ==> forall|j: int, kk: int| 0 <= j < i && 0 <= kk < tv[j].len() ==> table@.contains_key(#[trigger] tv[j][kk]) && table@[tv[j][kk]] == j,
                !race ==> forall|kk: int| 0 <= kk < k ==> table@.contains_key(#[trigger] tv[i as int][kk]) && table@[tv[i as int][kk]] == i,
                race ==> has_conflict(t0, tv),
            decreases addrs@.len() - k + (if race { 0int } else { 1int }),
        {
            let a = addrs[k];
            match table.get(&a) {
                Some(id) => {
                    if id != i {
                        proof {
                            if t0.contains_key(a) {
                                assert(conflicting(t0, tv, i as int, tv[i as int][k as int]));
                            } else {
                                let j = id as int;
                                assert(tv[j].contains(a));
                                assert(conflicting(t0, tv, i as int, tv[i as int][k as int]));
                            }
                        }
                        race = true;
                    }
                },
                None => {
                    table.insert(a, i);
                },
            }
            if !race {
                k = k + 1;
            }
        }
        if !race {
            i = i + 1;
        }
    }
    proof {
        if !race {
            assert forall|ii: int, k: int| 0 <= ii < tv.len() && 0 <= k < tv[ii].len() implies !conflicting(t0, tv, ii, #[trigger] tv[ii][k]) by {
                let a = tv[ii][k];
                assert(table@[a] == ii);
                assert forall|j: int| 0 <= j < tv.len() && j != ii implies !(#[trigger] tv[j].contains(a)) by {
                    if tv[j].contains(a) {
                        let kk = choose|kk: int| 0 <= kk < tv[j].len() && tv[j][kk] == a;
                        assert(table@[tv[j][kk]] == j);
                    }
                }
            }
        }
    }
    race
}

} // verus!
