use crate::types::Address;
use std::collections::hash_map::RandomState;
use vstd::prelude::*;

verus! {

#[verifier::external_type_specification]
#[verifier::external_body]
#[verifier::reject_recursive_types(K)]
#[verifier::reject_recursive_types(V)]
#[verifier::reject_recursive_types(S)]
pub struct ExHashbrownMap<K, V, S>(hashbrown::HashMap<K, V, S>);

/// The map that backs a dependency table: address to worker id.
pub type RawTable = hashbrown::HashMap<Address, usize, RandomState>;

/// The entries that a dependency table holds.
pub uninterp spec fn entries_of(m: RawTable) -> Map<Address, usize>;

/// Relies on hashbrown's `HashMap::with_hasher`: the new map is empty.
#[verifier::external_body]
fn raw_new() -> (r: RawTable)
    ensures
        entries_of(r).dom() == Set::<Address>::empty(),
{
    hashbrown::HashMap::with_hasher(RandomState::new())
}

/// Relies on hashbrown's `HashMap::get`: the value stored under the key, if any.
#[verifier::external_body]
fn raw_get(m: &RawTable, k: &Address) -> (r: Option<usize>)
    ensures
        r == (if entries_of(*m).contains_key(*k) { Some(entries_of(*m)[*k]) } else { None::<usize> }),
{
    m.get(k).copied()
}

/// Relies on hashbrown's `HashMap::insert`: the key now maps to the value,
/// every other entry is kept.
#[verifier::external_body]
fn raw_insert(m: &mut RawTable, k: Address, v: usize)
    ensures
        entries_of(*final(m)) == entries_of(*old(m)).insert(k, v),
{
    m.insert(k, v);
}

/// Relies on hashbrown's `HashMap::clear`: no entry is left.
#[verifier::external_body]
fn raw_clear(m: &mut RawTable)
    ensures
        entries_of(*final(m)).dom() == Set::<Address>::empty(),
{
    m.clear();
}

/// Mapping from account address to the worker currently authoritative for it.
/// Each address maps to a single worker id.
pub struct DependencyTable {
    map: RawTable,
}

impl DependencyTable {
    /// The table's contents.
    pub closed spec fn view(&self) -> Map<Address, usize> {
        entries_of(self.map)
    }

    /// An empty table.
    pub fn new() -> (r: Self)
        ensures
            r@ == Map::<Address, usize>::empty(),
    {
        DependencyTable { map: raw_new() }
    }

    /// The worker recorded for `a`, if any.
    pub fn get(&self, a: &Address) -> (r: Option<usize>)
        ensures
            r == (if self@.contains_key(*a) { Some(self@[*a]) } else { None::<usize> }),
    {
        raw_get(&self.map, a)
    }

    /// Records `worker` as authoritative for `a`.
    pub fn insert(&mut self, a: Address, worker: usize)
        ensures
            final(self)@ == old(self)@.insert(a, worker),
    {
        raw_insert(&mut self.map, a, worker)
    }

    /// Forgets every entry.
    pub fn clear(&mut self)
        ensures
            final(self)@ == Map::<Address, usize>::empty(),
    {
        raw_clear(&mut self.map)
    }
}

} // verus!
