//! Cache of the votes for protocol versions: a committed rolling tally and the
//! votes of the block in flight.

use crate::version_counters::{
    counter_entries, get_counter, insert_counter, lists_counters, ProtocolVersion,
};
use nohash_hasher::IntMap;
use vstd::prelude::*;

verus! {

/// What a [`ProtocolVersionsCache`] holds.
pub struct VoteTally {
    /// Committed rolling tally.
    pub global: Map<ProtocolVersion, u64>,
    /// Votes of the block in flight.
    pub block: Map<ProtocolVersion, u64>,
    /// The global tally was read from storage.
    pub loaded: bool,
    /// A threshold evaluation closed the epoch: the next merge wipes.
    pub needs_wipe: bool,
}

impl VoteTally {
    /// The tally with nothing in it.
    pub open spec fn empty() -> VoteTally {
        VoteTally { global: Map::empty(), block: Map::empty(), loaded: false, needs_wipe: false }
    }

    /// Some cache knows `version`.
    pub open spec fn knows(self, version: ProtocolVersion) -> bool {
        self.global.contains_key(version) || self.block.contains_key(version)
    }

    /// Votes for `version`: those committed plus those of the block in flight.
    pub open spec fn votes(self, version: ProtocolVersion) -> int {
        (if self.global.contains_key(version) {
            self.global[version] as int
        } else {
            0
        }) + (if self.block.contains_key(version) {
            self.block[version] as int
        } else {
            0
        })
    }

    /// `version` is known and has at least `required` votes.
    pub open spec fn passes(self, version: ProtocolVersion, required: u64) -> bool {
        self.knows(version) && self.votes(version) >= required
    }

    /// What a reader of `version` sees: the block's count where there is one,
    /// else the committed one.
    pub open spec fn visible(self, version: ProtocolVersion) -> Option<u64> {
        if self.block.contains_key(version) {
            Some(self.block[version])
        } else if self.global.contains_key(version) {
            Some(self.global[version])
        } else {
            None
        }
    }

    /// Every sum of a committed count and a block count fits in `u64`.
    pub open spec fn sums_fit(self) -> bool {
        forall|version: ProtocolVersion| #[trigger]
            self.knows(version) ==> self.votes(version) <= u64::MAX
    }

    /// The global tally with the block's votes added to it.
    pub open spec fn summed(self) -> Map<ProtocolVersion, u64> {
        Map::new(|version: ProtocolVersion| self.knows(version), |version: ProtocolVersion|
            self.votes(version) as u64)
    }

    /// After the block's count for `version` was set to `count`.
    pub open spec fn with_block_count(self, version: ProtocolVersion, count: u64) -> VoteTally {
        VoteTally { block: self.block.insert(version, count), ..self }
    }

    /// After the block cache was cleared.
    pub open spec fn without_block(self) -> VoteTally {
        VoteTally { block: Map::empty(), ..self }
    }

    /// After the global tally was read from storage as `counters`.
    pub open spec fn loaded_with(self, counters: Map<ProtocolVersion, u64>) -> VoteTally {
        VoteTally { global: counters, loaded: true, ..self }
    }

    /// After the block was finalized: wiped where an evaluation came before,
    /// else the block's votes added to the global tally.
    pub open spec fn merged(self) -> VoteTally {
        if self.needs_wipe {
            VoteTally { global: Map::empty(), block: Map::empty(), needs_wipe: false, ..self }
        } else {
            VoteTally { global: self.summed(), block: Map::empty(), ..self }
        }
    }

    /// After a threshold evaluation: the block's votes are consumed and the
    /// epoch is closed.
    pub open spec fn evaluated(self) -> VoteTally {
        VoteTally { block: Map::empty(), needs_wipe: true, ..self }
    }
}

/// A threshold evaluation closes the epoch: the merge that follows it leaves
/// both caches empty, whatever they held, so that no vote of the closed epoch
/// is added to the global tally.
pub proof fn lemma_merge_after_evaluation_wipes(tally: VoteTally)
    ensures
        tally.evaluated().merged() == (VoteTally {
            global: Map::empty(),
            block: Map::empty(),
            loaded: tally.loaded,
            needs_wipe: false,
        }),
{
}

/// A merge that wipes nothing keeps every vote: afterwards the global tally
/// holds, for each version known, the votes that were committed plus those of
/// the block, and a reader sees exactly that tally.
pub proof fn lemma_merge_keeps_votes(tally: VoteTally, version: ProtocolVersion)
    requires
        !tally.needs_wipe,
        tally.sums_fit(),
        tally.knows(version),
    ensures
        tally.merged().global.contains_key(version),
        tally.merged().global[version] == tally.votes(version),
        tally.merged().votes(version) == tally.votes(version),
        tally.merged().visible(version) == Some(tally.votes(version) as u64),
{
}

/// One of the first `done` entries is for `version`.
spec fn listed(
    entries: Seq<(ProtocolVersion, u64)>,
    done: int,
    version: ProtocolVersion,
) -> bool {
    exists|j: int| 0 <= j < done && j < entries.len() && (#[trigger] entries[j]).0 == version
}

/// The global tally while a merge is under way: the block's votes are added
/// for the versions of the first `done` entries.
spec fn partly_summed(
    start: VoteTally,
    entries: Seq<(ProtocolVersion, u64)>,
    done: int,
) -> Map<ProtocolVersion, u64> {
    Map::new(
        |version: ProtocolVersion|
            start.global.contains_key(version) || listed(entries, done, version),
        |version: ProtocolVersion|
            if listed(entries, done, version) {
                start.votes(version) as u64
            } else {
                start.global[version]
            },
    )
}

/// The entry at `done` is the one that `done + 1` adds to those listed.
proof fn step_listed(entries: Seq<(ProtocolVersion, u64)>, done: int, version: ProtocolVersion)
    requires
        0 <= done < entries.len(),
    ensures
        listed(entries, done + 1, version) <==> listed(entries, done, version) || entries[done].0
            == version,
{
    if listed(entries, done, version) {
        let j = choose|j: int|
            0 <= j < done && j < entries.len() && (#[trigger] entries[j]).0 == version;
        assert(0 <= j < done + 1 && entries[j].0 == version);
    }
    if entries[done].0 == version {
        assert(0 <= done < done + 1 && entries[done].0 == version);
    }
}

/// Once every entry is done, the versions listed are the keys of the map.
proof fn all_listed(
    entries: Seq<(ProtocolVersion, u64)>,
    counters: Map<ProtocolVersion, u64>,
    version: ProtocolVersion,
)
    requires
        lists_counters(entries, counters),
    ensures
        listed(entries, entries.len() as int, version) <==> counters.contains_key(version),
{
    if counters.contains_key(version) {
        let j = choose|j: int| 0 <= j < entries.len() && (#[trigger] entries[j]).0 == version;
        assert(0 <= j < entries.len() && entries[j].0 == version);
    }
    if listed(entries, entries.len() as int, version) {
        let j = choose|j: int|
            0 <= j < entries.len() && j < entries.len() && (#[trigger] entries[j]).0 == version;
        assert(counters.contains_key(entries[j].0));
    }
}

/// A push of something new keeps a sequence free of duplicates.
proof fn push_keeps_distinct(before: Seq<ProtocolVersion>, pushed: ProtocolVersion)
    requires
        before.no_duplicates(),
        !before.contains(pushed),
    ensures
        before.push(pushed).no_duplicates(),
{
    let after = before.push(pushed);
    assert forall|i: int, j: int| 0 <= i < after.len() && 0 <= j < after.len() && i != j implies
        after[i] != after[j] by {
        if i < before.len() {
            assert(before.contains(before[i]));
        }
        if j < before.len() {
            assert(before.contains(before[j]));
        }
    }
}

/// What a sequence contains after a push.
proof fn push_contains(before: Seq<ProtocolVersion>, pushed: ProtocolVersion, other: ProtocolVersion)
    ensures
        before.push(pushed).contains(other) <==> before.contains(other) || other == pushed,
{
    let after = before.push(pushed);
    if before.contains(other) {
        let j = choose|j: int| 0 <= j < before.len() && before[j] == other;
        assert(after[j] == other);
    }
    if other == pushed {
        assert(after[before.len() as int] == other);
    }
}

/// ProtocolVersion cache that handles both global and block data
pub struct ProtocolVersionsCache {
    /// The current global cache for protocol versions. Contracts speak of it
    /// as the `global` of the view; [`ProtocolVersionsCache::global`] reads it
    /// with that contract.
    pub global_cache: IntMap<ProtocolVersion, u64>,
    block_cache: IntMap<ProtocolVersion, u64>,
    loaded: bool,
    needs_wipe: bool,
}

impl View for ProtocolVersionsCache {
    type V = VoteTally;

    closed spec fn view(&self) -> VoteTally {
        VoteTally {
            global: self.global_cache@,
            block: self.block_cache@,
            loaded: self.loaded,
            needs_wipe: self.needs_wipe,
        }
    }
}

impl Default for ProtocolVersionsCache {
    fn default() -> (cache: Self)
        ensures
            cache@ == VoteTally::empty(),
    {
        ProtocolVersionsCache {
            global_cache: IntMap::default(),
            block_cache: IntMap::default(),
            loaded: false,
            needs_wipe: false,
        }
    }
}

impl ProtocolVersionsCache {
    /// Create a new ProtocolVersionsCache instance
    pub fn new() -> (cache: Self)
        ensures
            cache@ == VoteTally::empty(),
    {
        ProtocolVersionsCache {
            global_cache: IntMap::default(),
            block_cache: IntMap::default(),
            loaded: false,
            needs_wipe: false,
        }
    }

    /// The committed rolling tally: what the public field `global_cache` holds.
    pub fn global(&self) -> (global: &IntMap<ProtocolVersion, u64>)
        ensures
            global@ == self@.global,
    {
        &self.global_cache
    }

    /// Sets the protocol version to the block cache
    pub fn set_block_cache_version_count(&mut self, version: ProtocolVersion, count: u64)
        ensures
            final(self)@ == old(self)@.with_block_count(version, count),
    {
        insert_counter(&mut self.block_cache, version, count);
    }

    /// Tries to get a version from block cache if present
    /// if block cache doesn't have the version set
    /// then it tries get the version from global cache
    pub fn get(&self, version: &ProtocolVersion) -> (count: Option<&u64>)
        ensures
            match count {
                Some(c) => self@.visible(*version) == Some(*c),
                None => self@.visible(*version) is None,
            },
    {
        if let Some(count) = get_counter(&self.block_cache, version) {
            Some(count)
        } else {
            get_counter(&self.global_cache, version)
        }
    }

    /// Load the protocol versions cache from storage if needed: on the first
    /// call `fetch` reads the persisted counters, which become the global
    /// tally; once that has succeeded, `fetch` is not called again.
    pub fn load_if_needed<E, F: FnOnce() -> Result<IntMap<ProtocolVersion, u64>, E>>(
        &mut self,
        fetch: F,
    ) -> (outcome: Result<(), E>)
        requires
            !old(self)@.loaded ==> call_requires(fetch, ()),
        ensures
            old(self)@.loaded ==> outcome is Ok && final(self)@ == old(self)@,
            !old(self)@.loaded ==> match outcome {
                Ok(_) => exists|counters: IntMap<ProtocolVersion, u64>|
                    call_ensures(fetch, (), Ok(counters)) && final(self)@ == old(self)@.loaded_with(
                        counters@,
                    ),
                Err(error) => call_ensures(fetch, (), Err(error)) && final(self)@ == old(self)@,
            },
    {
        if !self.loaded {
            match fetch() {
                Ok(counters) => {
                    let ghost fetched = counters;
                    self.global_cache = counters;
                    self.loaded = true;
                    assert(call_ensures(fetch, (), Ok::<IntMap<ProtocolVersion, u64>, E>(fetched))
                        && self@ == old(self)@.loaded_with(fetched@));
                },
                Err(error) => {
                    return Err(error);
                },
            }
        }
        Ok(())
    }

    /// Whether every sum of a committed count and a block count fits in `u64`,
    /// so that a merge can add them.
    pub fn block_votes_fit(&self) -> (fit: bool)
        ensures
            fit == self@.sums_fit(),
    {
        let entries = counter_entries(&self.block_cache);
        let mut i: usize = 0;
        while i < entries.len()
            invariant
                i <= entries.len(),
                lists_counters(entries@, self.block_cache@),
                forall|j: int|
                    0 <= j < i ==> self@.votes((#[trigger] entries@[j]).0) <= u64::MAX,
            decreases entries.len() - i,
        {
            let (version, count) = entries[i];
            if let Some(committed) = get_counter(&self.global_cache, &version) {
                if *committed > u64::MAX - count {
                    assert(self@.knows(version) && self@.votes(version) > u64::MAX);
                    return false;
                }
            }
            i += 1;
        }
        assert forall|version: ProtocolVersion| #[trigger] self@.knows(version) implies self@.votes(
            version,
        ) <= u64::MAX by {
            if self.block_cache@.contains_key(version) {
                let j = choose|j: int|
                    0 <= j < entries@.len() && (#[trigger] entries@[j]).0 == version;
                assert(self@.votes(entries@[j].0) <= u64::MAX);
            }
        }
        true
    }

    /// Merges like [`ProtocolVersionsCache::merge_block_cache`] where that is
    /// possible, and says whether it was. Where a sum of a committed count and
    /// a block count does not fit in `u64`, nothing changes.
    pub fn checked_merge_block_cache(&mut self) -> (merged: bool)
        ensures
            merged == (old(self)@.needs_wipe || old(self)@.sums_fit()),
            merged ==> final(self)@ == old(self)@.merged(),
            !merged ==> final(self)@ == old(self)@,
    {
        if self.needs_wipe || self.block_votes_fit() {
            self.merge_block_cache();
            true
        } else {
            false
        }
    }

    /// Merge block cache to global cache
    pub fn merge_block_cache(&mut self)
        requires
            !old(self)@.needs_wipe ==> old(self)@.sums_fit(),
        ensures
            final(self)@ == old(self)@.merged(),
    {
        if self.needs_wipe {
            self.global_cache.clear();
            self.block_cache.clear();
            self.needs_wipe = false;
        } else {
            let ghost start = self@;
            let entries = counter_entries(&self.block_cache);
            let mut i: usize = 0;
            assert(self.global_cache@ =~= partly_summed(start, entries@, 0));
            while i < entries.len()
                invariant
                    i <= entries.len(),
                    lists_counters(entries@, start.block),
                    start.sums_fit(),
                    self.block_cache@ == start.block,
                    self.loaded == start.loaded,
                    self.needs_wipe == start.needs_wipe,
                    self.global_cache@ == partly_summed(start, entries@, i as int),
                decreases entries.len() - i,
            {
                let (version, count) = entries[i];
                assert(!listed(entries@, i as int, version));
                assert(start.knows(version));
                let total: u64 = match get_counter(&self.global_cache, &version) {
                    Some(committed) => *committed + count,
                    None => count,
                };
                insert_counter(&mut self.global_cache, version, total);
                assert(self.global_cache@ =~= partly_summed(start, entries@, i + 1)) by {
                    assert forall|other: ProtocolVersion|
                        listed(entries@, i + 1, other) <==> (listed(entries@, i as int, other)
                            || other == version) by {
                        step_listed(entries@, i as int, other);
                    }
                }
                i += 1;
            }
            assert(self.global_cache@ =~= start.summed()) by {
                assert forall|version: ProtocolVersion|
                    listed(entries@, i as int, version) <==> start.block.contains_key(
                        version,
                    ) by {
                    all_listed(entries@, start.block, version);
                }
            }
            self.block_cache.clear();
        }
    }

    /// Versions passing threshold: every version whose votes, those committed
    /// plus those of the block in flight, reach `required_upgraded_hpns`, each
    /// once and in no particular order. The block's votes are consumed, and the
    /// next merge wipes both caches.
    pub fn versions_passing_threshold(&mut self, required_upgraded_hpns: u64) -> (versions: Vec<
        ProtocolVersion,
    >)
        ensures
            final(self)@ == old(self)@.evaluated(),
            versions@.no_duplicates(),
            forall|version: ProtocolVersion|
                versions@.contains(version) <==> old(self)@.passes(version, required_upgraded_hpns),
    {
        self.needs_wipe = true;
        let ghost start = old(self)@;
        let mut versions: Vec<ProtocolVersion> = Vec::new();

        let committed = counter_entries(&self.global_cache);
        let mut i: usize = 0;
        while i < committed.len()
            invariant
                i <= committed.len(),
                lists_counters(committed@, start.global),
                self.global_cache@ == start.global,
                self.block_cache@ == start.block,
                self.loaded == start.loaded,
                self.needs_wipe,
                versions@.no_duplicates(),
                forall|version: ProtocolVersion|
                    versions@.contains(version) <==> listed(committed@, i as int, version)
                        && start.passes(version, required_upgraded_hpns),
            decreases committed.len() - i,
        {
            let (version, count) = committed[i];
            assert(!listed(committed@, i as int, version));
            let passes = match get_counter(&self.block_cache, &version) {
                Some(in_block) => count >= required_upgraded_hpns || *in_block
                    >= required_upgraded_hpns - count,
                None => count >= required_upgraded_hpns,
            };
            let ghost before = versions@;
            if passes {
                versions.push(version);
                proof {
                    push_keeps_distinct(before, version);
                }
            }
            assert forall|other: ProtocolVersion|
                versions@.contains(other) <==> listed(committed@, i + 1, other) && start.passes(
                    other,
                    required_upgraded_hpns,
                ) by {
                step_listed(committed@, i as int, other);
                if passes {
                    push_contains(before, version, other);
                }
            }
            i += 1;
        }

        let in_flight = counter_entries(&self.block_cache);
        let mut k: usize = 0;
        while k < in_flight.len()
            invariant
                k <= in_flight.len(),
                lists_counters(in_flight@, start.block),
                lists_counters(committed@, start.global),
                self.global_cache@ == start.global,
                self.block_cache@ == start.block,
                self.loaded == start.loaded,
                self.needs_wipe,
                versions@.no_duplicates(),
                forall|version: ProtocolVersion|
                    versions@.contains(version) <==> start.passes(version, required_upgraded_hpns)
                        && (start.global.contains_key(version) || listed(
                        in_flight@,
                        k as int,
                        version,
                    )),
            decreases in_flight.len() - k,
        {
            let (version, count) = in_flight[k];
            assert(!listed(in_flight@, k as int, version));
            let passes = get_counter(&self.global_cache, &version).is_none() && count
                >= required_upgraded_hpns;
            let ghost before = versions@;
            if passes {
                versions.push(version);
                proof {
                    push_keeps_distinct(before, version);
                }
            }
            assert forall|other: ProtocolVersion|
                versions@.contains(other) <==> start.passes(other, required_upgraded_hpns) && (
                start.global.contains_key(other) || listed(in_flight@, k + 1, other)) by {
                step_listed(in_flight@, k as int, other);
                if passes {
                    push_contains(before, version, other);
                }
            }
            k += 1;
        }

        self.block_cache.clear();
        assert forall|version: ProtocolVersion|
            versions@.contains(version) <==> start.passes(version, required_upgraded_hpns) by {
            all_listed(in_flight@, start.block, version);
        }
        versions
    }

    /// Clear block cache
    pub fn clear_block_cache(&mut self)
        ensures
            final(self)@ == old(self)@.without_block(),
    {
        self.block_cache.clear()
    }
}

} // verus!
