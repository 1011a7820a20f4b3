//! The integer-keyed hash map that holds the vote counters.
//!
//! `nohash_hasher::IntMap<K, V>` is `std::collections::HashMap` with a hasher
//! that uses the integer key itself as the hash. The functions of this module
//! state, without proof, what the map's own methods do to its contents; the
//! contents are the map's view, a `Map<ProtocolVersion, u64>`.

use nohash_hasher::IntMap;
use vstd::prelude::*;

verus! {

/// Number of a protocol version.
pub type ProtocolVersion = u32;

/// `nohash_hasher::NoHashHasher`, the hasher of an `IntMap`; nothing is said of
/// what it holds.
#[verifier::external_type_specification]
#[verifier::external_body]
#[verifier::reject_recursive_types(T)]
pub struct ExNoHashHasher<T>(nohash_hasher::NoHashHasher<T>);

/// `std::hash::BuildHasherDefault`, which makes the hashers of an `IntMap`;
/// nothing is said of what it holds.
#[verifier::external_type_specification]
#[verifier::external_body]
#[verifier::reject_recursive_types(H)]
pub struct ExBuildHasherDefault<H>(std::hash::BuildHasherDefault<H>);

/// `entries` lists every key of `counters` exactly once, each with its value.
pub open spec fn lists_counters(
    entries: Seq<(ProtocolVersion, u64)>,
    counters: Map<ProtocolVersion, u64>,
) -> bool {
    &&& forall|i: int|
        0 <= i < entries.len() ==> counters.contains_key(#[trigger] entries[i].0)
            && counters[entries[i].0] == entries[i].1
    &&& forall|i: int, j: int|
        0 <= i < j < entries.len() ==> (#[trigger] entries[i]).0 != (#[trigger] entries[j]).0
    &&& forall|version: ProtocolVersion| #[trigger]
        counters.contains_key(version) ==> exists|i: int|
            0 <= i < entries.len() && (#[trigger] entries[i]).0 == version
}

/// `IntMap::insert` (that of `std::collections::HashMap`): afterwards the map
/// holds `count` under `version`, and every other key as before.
#[verifier::external_body]
pub(crate) fn insert_counter(
    counters: &mut IntMap<ProtocolVersion, u64>,
    version: ProtocolVersion,
    count: u64,
)
    ensures
        final(counters)@ == old(counters)@.insert(version, count),
{
    counters.insert(version, count);
}

/// `IntMap::get` (that of `std::collections::HashMap`): the value held under
/// `version`, or `None` where the map has no such key.
#[verifier::external_body]
pub(crate) fn get_counter<'a>(
    counters: &'a IntMap<ProtocolVersion, u64>,
    version: &ProtocolVersion,
) -> (count: Option<&'a u64>)
    ensures
        count == (if counters@.contains_key(*version) {
            Some(&counters@[*version])
        } else {
            None
        }),
{
    counters.get(version)
}

/// `IntMap::iter` (that of `std::collections::HashMap`), collected: every
/// key-value pair of the map once, in an order that nothing is said about.
#[verifier::external_body]
pub(crate) fn counter_entries(counters: &IntMap<ProtocolVersion, u64>) -> (entries: Vec<
    (ProtocolVersion, u64),
>)
    ensures
        lists_counters(entries@, counters@),
{
    counters.iter().map(|(version, count)| (*version, *count)).collect()
}

} // verus!
