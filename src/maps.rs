//! The sharded concurrent maps that hold pending counters and rate-limit
//! entries, with what this library relies on of them.

use dashmap::DashMap;
use vstd::prelude::*;

verus! {

#[verifier::external_type_specification]
#[verifier::external_body]
#[verifier::reject_recursive_types(K)]
#[verifier::reject_recursive_types(V)]
#[verifier::reject_recursive_types(S)]
pub struct ExDashMap<K, V, S>(DashMap<K, V, S>);

/// What a map of counters keyed by `(project id, site path)` holds.
pub uninterp spec fn path_counts(m: DashMap<(u64, String), u32>) -> Map<(u64, Seq<char>), u32>;

/// What a map of revenue totals keyed by project id holds.
pub uninterp spec fn project_totals(m: DashMap<u64, u64>) -> Map<u64, u64>;

/// No counters at all.
pub open spec fn no_path_counts() -> Map<(u64, Seq<char>), u32> {
    Map::empty()
}

/// No revenue totals at all.
pub open spec fn no_project_totals() -> Map<u64, u64> {
    Map::empty()
}

/// The view of a `(project id, site path)` key.
pub open spec fn path_key(k: (u64, String)) -> (u64, Seq<char>) {
    (k.0, k.1@)
}

/// `entries` lists the map `m`: each key once, each with its value, and nothing else.
pub open spec fn lists_path_counts(entries: Seq<((u64, String), u32)>, m: Map<(u64, Seq<char>), u32>) -> bool {
    &&& entries.len() == m.len()
    &&& forall|i: int, j: int|
        0 <= i < j < entries.len() ==> path_key(#[trigger] entries[i].0) != path_key(#[trigger] entries[j].0)
    &&& forall|i: int|
        0 <= i < entries.len() ==> m.dom().contains(path_key(#[trigger] entries[i].0))
            && m[path_key(entries[i].0)] == entries[i].1
    &&& forall|k: (u64, Seq<char>)|
        #[trigger] m.dom().contains(k) ==> exists|i: int| 0 <= i < entries.len() && path_key(#[trigger] entries[i].0) == k
}

/// `entries` lists the map `m`: each key once, each with its value, and nothing else.
pub open spec fn lists_project_totals(entries: Seq<(u64, u64)>, m: Map<u64, u64>) -> bool {
    &&& entries.len() == m.len()
    &&& forall|i: int, j: int|
        0 <= i < j < entries.len() ==> (#[trigger] entries[i]).0 != (#[trigger] entries[j]).0
    &&& forall|i: int|
        0 <= i < entries.len() ==> m.dom().contains((#[trigger] entries[i]).0) && m[entries[i].0] == entries[i].1
    &&& forall|k: u64|
        #[trigger] m.dom().contains(k) ==> exists|i: int| 0 <= i < entries.len() && (#[trigger] entries[i]).0 == k
}

/// Relies on `DashMap::with_capacity`: a new map is empty.
#[verifier::external_body]
pub(crate) fn new_path_counts() -> (r: DashMap<(u64, String), u32>)
    ensures
        path_counts(r) == no_path_counts(),
{
    DashMap::with_capacity(1000)
}

/// Relies on `DashMap::get`: the value stored under the key, if any.
#[verifier::external_body]
pub(crate) fn get_path_count(m: &DashMap<(u64, String), u32>, key: &(u64, String)) -> (r: Option<u32>)
    ensures
        r is Some <==> path_counts(*m).dom().contains(path_key(*key)),
        r matches Some(v) ==> v == path_counts(*m)[path_key(*key)],
{
    m.get(key).map(|v| *v)
}

/// Relies on `DashMap::insert`: the key maps to the value afterwards, other keys are kept.
#[verifier::external_body]
pub(crate) fn set_path_count(m: &mut DashMap<(u64, String), u32>, key: (u64, String), value: u32)
    ensures
        path_counts(*final(m)) == path_counts(*old(m)).insert(path_key(key), value),
{
    m.insert(key, value);
}

/// Relies on `DashMap`'s owning iterator, after taking the map out and leaving an
/// empty one (`Default`): each shard yields its entries once.
#[verifier::external_body]
pub(crate) fn take_path_counts(m: &mut DashMap<(u64, String), u32>) -> (r: Vec<((u64, String), u32)>)
    ensures
        path_counts(*final(m)) == no_path_counts(),
        lists_path_counts(r@, path_counts(*old(m))),
{
    std::mem::take(m).into_iter().collect()
}

/// Relies on `DashMap::with_capacity`: a new map is empty.
#[verifier::external_body]
pub(crate) fn new_project_totals() -> (r: DashMap<u64, u64>)
    ensures
        project_totals(r) == no_project_totals(),
{
    DashMap::with_capacity(1000)
}

/// Relies on `DashMap::get`: the value stored under the key, if any.
#[verifier::external_body]
pub(crate) fn get_project_total(m: &DashMap<u64, u64>, key: u64) -> (r: Option<u64>)
    ensures
        r is Some <==> project_totals(*m).dom().contains(key),
        r matches Some(v) ==> v == project_totals(*m)[key],
{
    m.get(&key).map(|v| *v)
}

/// Relies on `DashMap::insert`: the key maps to the value afterwards, other keys are kept.
#[verifier::external_body]
pub(crate) fn set_project_total(m: &mut DashMap<u64, u64>, key: u64, value: u64)
    ensures
        project_totals(*final(m)) == project_totals(*old(m)).insert(key, value),
{
    m.insert(key, value);
}

/// Relies on `DashMap`'s owning iterator, after taking the map out and leaving an
/// empty one (`Default`): each shard yields its entries once.
#[verifier::external_body]
pub(crate) fn take_project_totals(m: &mut DashMap<u64, u64>) -> (r: Vec<(u64, u64)>)
    ensures
        project_totals(*final(m)) == no_project_totals(),
        lists_project_totals(r@, project_totals(*old(m))),
{
    std::mem::take(m).into_iter().collect()
}

/// What a map of rate-limit counters keyed by `(hashed client, site path)` holds.
pub uninterp spec fn rate_counts(m: DashMap<(Vec<u8>, String), u32>) -> Map<(Seq<u8>, Seq<char>), u32>;

/// No rate-limit entries at all.
pub open spec fn no_rate_counts() -> Map<(Seq<u8>, Seq<char>), u32> {
    Map::empty()
}

/// The view of a `(hashed client, site path)` key.
pub open spec fn rate_key_view(k: (Vec<u8>, String)) -> (Seq<u8>, Seq<char>) {
    (k.0@, k.1@)
}

/// Relies on `DashMap::with_capacity`: a new map is empty.
#[verifier::external_body]
pub(crate) fn new_rate_counts() -> (r: DashMap<(Vec<u8>, String), u32>)
    ensures
        rate_counts(r) == no_rate_counts(),
{
    DashMap::with_capacity(1000)
}

/// Relies on `DashMap::get`: the value stored under the key, if any.
#[verifier::external_body]
pub(crate) fn get_rate_count(m: &DashMap<(Vec<u8>, String), u32>, key: &(Vec<u8>, String)) -> (r: Option<u32>)
    ensures
        r is Some <==> rate_counts(*m).dom().contains(rate_key_view(*key)),
        r matches Some(v) ==> v == rate_counts(*m)[rate_key_view(*key)],
{
    m.get(key).map(|v| *v)
}

/// Relies on `DashMap::insert`: the key maps to the value afterwards, other keys are kept.
#[verifier::external_body]
pub(crate) fn set_rate_count(m: &mut DashMap<(Vec<u8>, String), u32>, key: (Vec<u8>, String), value: u32)
    ensures
        rate_counts(*final(m)) == rate_counts(*old(m)).insert(rate_key_view(key), value),
{
    m.insert(key, value);
}

/// Relies on `DashMap::clear`: no entry is left.
#[verifier::external_body]
pub(crate) fn clear_rate_counts(m: &mut DashMap<(Vec<u8>, String), u32>)
    ensures
        rate_counts(*final(m)) == no_rate_counts(),
{
    m.clear()
}

} // verus!
