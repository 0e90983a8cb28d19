//! The trusted layer over `ic-stable-structures`: the durable cell that
//! backs the id counter and the durable B-tree maps that back the record
//! store. Verus cannot declare the crate's types themselves (their bounds
//! name its `Storable` and `Memory` traits), so each structure sits in a
//! holder struct opaque to the verifier, and every wrapper's contract
//! states, over the uninterpreted contents functions below, what the
//! crate's source shows of the call.

use vstd::prelude::*;
use ic_stable_structures::btreemap::BTreeMap;
use ic_stable_structures::cell::Cell;
use ic_stable_structures::memory_manager::VirtualMemory;
use ic_stable_structures::DefaultMemoryImpl;

verus! {

/// A durable map from id to a string-valued record field.
#[verifier::external_body]
pub struct StrTable {
    pub(crate) inner: BTreeMap<u64, String, VirtualMemory<DefaultMemoryImpl>>,
}

/// A durable map from id to an integer-valued record field.
#[verifier::external_body]
pub struct U64Table {
    pub(crate) inner: BTreeMap<u64, u64, VirtualMemory<DefaultMemoryImpl>>,
}

/// A durable cell holding a single integer.
#[verifier::external_body]
pub struct CounterCell {
    pub(crate) inner: Cell<u64, VirtualMemory<DefaultMemoryImpl>>,
}

/// The entries a string-valued table holds, as a map of plain values.
pub uninterp spec fn str_table(m: StrTable) -> Map<u64, Seq<char>>;

/// The entries an integer-valued table holds, as a map of plain values.
pub uninterp spec fn u64_table(m: U64Table) -> Map<u64, u64>;

/// The value a durable cell holds.
pub uninterp spec fn cell_value(c: CounterCell) -> u64;

/// Relies on `BTreeMap::insert`: maps `k` to `v`, replacing any previous
/// entry for `k` and leaving every other entry unchanged.
#[verifier::external_body]
pub(crate) fn str_table_insert(m: &mut StrTable, k: u64, v: String)
    ensures
        str_table(*final(m)) == str_table(*old(m)).insert(k, v@),
{
    m.inner.insert(k, v);
}

/// Relies on `BTreeMap::get`: returns a copy of the value under `k` when one
/// is present, and nothing otherwise, without touching the map.
#[verifier::external_body]
pub(crate) fn str_table_get(m: &StrTable, k: u64) -> (r: Option<String>)
    ensures
        match r {
            Some(v) => str_table(*m).contains_key(k) && v@ == str_table(*m)[k],
            None => !str_table(*m).contains_key(k),
        },
{
    m.inner.get(&k)
}

/// Relies on `BTreeMap::remove`: deletes the entry under `k` and returns its
/// value when one is present; otherwise returns nothing and changes nothing.
#[verifier::external_body]
pub(crate) fn str_table_remove(m: &mut StrTable, k: u64) -> (r: Option<String>)
    ensures
        str_table(*final(m)) == str_table(*old(m)).remove(k),
        match r {
            Some(v) => str_table(*old(m)).contains_key(k) && v@ == str_table(*old(m))[k],
            None => !str_table(*old(m)).contains_key(k),
        },
{
    m.inner.remove(&k)
}

/// Relies on `BTreeMap::len`: returns the number of entries in the map.
#[verifier::external_body]
pub(crate) fn str_table_len(m: &StrTable) -> (r: u64)
    ensures
        r as nat == str_table(*m).dom().len(),
{
    m.inner.len()
}

/// Relies on `BTreeMap::insert`: maps `k` to `v`, replacing any previous
/// entry for `k` and leaving every other entry unchanged.
#[verifier::external_body]
pub(crate) fn u64_table_insert(m: &mut U64Table, k: u64, v: u64)
    ensures
        u64_table(*final(m)) == u64_table(*old(m)).insert(k, v),
{
    m.inner.insert(k, v);
}

/// Relies on `BTreeMap::get`: returns the value under `k` when one is
/// present, and nothing otherwise, without touching the map.
#[verifier::external_body]
pub(crate) fn u64_table_get(m: &U64Table, k: u64) -> (r: Option<u64>)
    ensures
        match r {
            Some(v) => u64_table(*m).contains_key(k) && v == u64_table(*m)[k],
            None => !u64_table(*m).contains_key(k),
        },
{
    m.inner.get(&k)
}

/// Relies on `BTreeMap::remove`: deletes the entry under `k` and returns its
/// value when one is present; otherwise returns nothing and changes nothing.
#[verifier::external_body]
pub(crate) fn u64_table_remove(m: &mut U64Table, k: u64) -> (r: Option<u64>)
    ensures
        u64_table(*final(m)) == u64_table(*old(m)).remove(k),
        match r {
            Some(v) => u64_table(*old(m)).contains_key(k) && v == u64_table(*old(m))[k],
            None => !u64_table(*old(m)).contains_key(k),
        },
{
    m.inner.remove(&k)
}

/// Relies on `Cell::get`: returns the value the cell holds.
#[verifier::external_body]
pub(crate) fn cell_get(c: &CounterCell) -> (r: u64)
    ensures
        r == cell_value(*c),
{
    *c.inner.get()
}

/// Relies on `Cell::set`: writes the value to the backing memory and keeps
/// it in the cell. A `u64` encodes to eight bytes, which always fit in the
/// cell's first memory page, so the write cannot fail.
#[verifier::external_body]
pub(crate) fn cell_set(c: &mut CounterCell, v: u64)
    ensures
        cell_value(*final(c)) == v,
{
    let _ = c.inner.set(v);
}

} // verus!
