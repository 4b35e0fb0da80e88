//! The store's lock table: for each path, the number of handles that hold it.
//!
//! The table is a reference count, not a mutual-exclusion lock. It tells a
//! reclamation process which paths are in use. A path has an entry exactly
//! while at least one handle holds it.

use dashmap::DashMap;
use std::collections::hash_map::RandomState;
use vstd::prelude::*;

verus! {

/// `dashmap::DashMap`, the concurrent hash map. Nothing of its inside is known
/// here: what it holds is spoken of through `map_entries` alone.
#[verifier::external_type_specification]
#[verifier::external_body]
#[verifier::reject_recursive_types(K)]
#[verifier::reject_recursive_types(V)]
#[verifier::reject_recursive_types(S)]
pub struct ExDashMap<K, V, S>(DashMap<K, V, S>);

/// The entries of a `DashMap` from paths to counts, as a mathematical map: the
/// keys by their bytes, each with the count stored under it.
pub uninterp spec fn map_entries(map: DashMap<Vec<u8>, usize, RandomState>) -> Map<Seq<u8>, usize>;

/// `DashMap::new`: a fresh map has no entries.
#[verifier::external_body]
fn map_new() -> (table: DashMap<Vec<u8>, usize, RandomState>)
    ensures
        map_entries(table) == (Map::<Seq<u8>, usize>::empty()),
{
    DashMap::new()
}

/// `DashMap::get`: the value stored under a key equal to `path`, if there is one.
/// The guard that `get` returns is dropped before the wrapper returns.
#[verifier::external_body]
fn map_get(map: &DashMap<Vec<u8>, usize, RandomState>, path: &[u8]) -> (count: Option<usize>)
    ensures
        count == (if map_entries(*map).contains_key(path@) {
            Some(map_entries(*map)[path@])
        } else {
            None
        }),
{
    map.get(path).map(|entry| *entry.value())
}

/// `DashMap::insert`: afterwards `path` maps to `count` and every other key is
/// as before. Returns the value that `path` had, if it had one. The call is
/// taken not to unwind.
#[verifier::external_body]
fn map_insert(map: &mut DashMap<Vec<u8>, usize, RandomState>, path: Vec<u8>, count: usize) -> (previous:
    Option<usize>)
    ensures
        map_entries(*final(map)) == map_entries(*old(map)).insert(path@, count),
        previous == (if map_entries(*old(map)).contains_key(path@) {
            Some(map_entries(*old(map))[path@])
        } else {
            None
        }),
    no_unwind
{
    map.insert(path, count)
}

/// `DashMap::remove`: afterwards `path` has no entry and every other key is as
/// before. Returns the value that `path` had, if it had one. The call is taken
/// not to unwind.
#[verifier::external_body]
fn map_remove(map: &mut DashMap<Vec<u8>, usize, RandomState>, path: &[u8]) -> (previous: Option<
    usize,
>)
    ensures
        map_entries(*final(map)) == map_entries(*old(map)).remove(path@),
        previous == (if map_entries(*old(map)).contains_key(path@) {
            Some(map_entries(*old(map))[path@])
        } else {
            None
        }),
    no_unwind
{
    map.remove(path).map(|pair| pair.1)
}

/// How many handles hold `path` in `table`: its count, or zero without an entry.
pub open spec fn holders(table: Map<Seq<u8>, nat>, path: Seq<u8>) -> nat {
    if table.contains_key(path) {
        table[path]
    } else {
        0
    }
}

/// The table after one more handle took `path`.
pub open spec fn with_holder(table: Map<Seq<u8>, nat>, path: Seq<u8>) -> Map<Seq<u8>, nat> {
    table.insert(path, holders(table, path) + 1)
}

/// The table after one handle on `path` was released. The last release removes
/// the entry. A release without an entry changes nothing.
pub open spec fn without_holder(table: Map<Seq<u8>, nat>, path: Seq<u8>) -> Map<Seq<u8>, nat> {
    if holders(table, path) <= 1 {
        table.remove(path)
    } else {
        table.insert(path, (holders(table, path) - 1) as nat)
    }
}

/// No entry has a count of zero.
pub open spec fn no_stale_entries(table: Map<Seq<u8>, nat>) -> bool {
    forall|path: Seq<u8>| table.contains_key(path) ==> #[trigger] table[path] >= 1
}

/// What a release found in the table.
#[derive(Clone, Copy, Debug, PartialEq, Eq, Structural)]
pub enum ReleaseOutcome {
    /// Other handles still hold the path; its count went down by one.
    StillHeld,
    /// This was the last holder; the entry is gone.
    Freed,
    /// The path had no entry. An accounting fault of the caller: the table is
    /// unchanged, and the caller should warn about it.
    Excess,
}

/// The outcome that releasing `path` has on `table`.
pub open spec fn release_outcome(table: Map<Seq<u8>, nat>, path: Seq<u8>) -> ReleaseOutcome {
    if !table.contains_key(path) {
        ReleaseOutcome::Excess
    } else if table[path] <= 1 {
        ReleaseOutcome::Freed
    } else {
        ReleaseOutcome::StillHeld
    }
}

/// The state that all handles of one store share.
pub struct StoreState {
    locks: DashMap<Vec<u8>, usize, RandomState>,
}

impl View for StoreState {
    type V = Map<Seq<u8>, nat>;

    /// The lock table: each held path with its number of holders.
    closed spec fn view(&self) -> Map<Seq<u8>, nat> {
        Map::new(
            |path: Seq<u8>| map_entries(self.locks).contains_key(path),
            |path: Seq<u8>| map_entries(self.locks)[path] as nat,
        )
    }
}

impl StoreState {
    /// No path is stored with a count of zero.
    #[verifier::type_invariant]
    pub closed spec fn counts_positive(&self) -> bool {
        forall|path: Seq<u8>|
            map_entries(self.locks).contains_key(path) ==> #[trigger] map_entries(
                self.locks,
            )[path] >= 1
    }

    /// What `counts_positive` means for the view.
    pub proof fn lemma_counts_positive(self)
        requires
            self.counts_positive(),
        ensures
            no_stale_entries(self@),
    {
    }

    /// A state in which no path is held.
    pub fn new() -> (state: StoreState)
        ensures
            state@ == Map::<Seq<u8>, nat>::empty(),
    {
        let state = StoreState { locks: map_new() };
        assert(state@ =~= Map::<Seq<u8>, nat>::empty());
        state
    }

    /// The number of handles that hold `path`.
    pub fn holders(&self, path: &[u8]) -> (count: usize)
        ensures
            count == holders(self@, path@),
            count > 0 <==> self@.contains_key(path@),
            no_stale_entries(self@),
    {
        proof {
            use_type_invariant(self);
        }
        match map_get(&self.locks, path) {
            Some(count) => count,
            None => 0,
        }
    }

    /// Counts one more holder of `path`, creating its entry if there is none.
    pub fn increase_lock(&mut self, path: Vec<u8>)
        requires
            holders(old(self)@, path@) < usize::MAX,
        ensures
            final(self)@ == with_holder(old(self)@, path@),
            no_stale_entries(final(self)@),
    {
        proof {
            use_type_invariant(&*self);
        }
        let ghost before = self@;
        let ghost key = path@;
        let count = match map_get(&self.locks, path.as_slice()) {
            Some(count) => count,
            None => 0,
        };
        map_insert(&mut self.locks, path, count + 1);
        assert(self@ =~= with_holder(before, key));
    }

    /// Releases one holder of `path`. The last release removes the entry, so
    /// the table never keeps a count of zero. A release of a path without an
    /// entry leaves the table as it is and reports `Excess`.
    pub fn decrease_lock(&mut self, path: Vec<u8>) -> (outcome: ReleaseOutcome)
        ensures
            final(self)@ == without_holder(old(self)@, path@),
            outcome == release_outcome(old(self)@, path@),
            no_stale_entries(final(self)@),
    {
        proof {
            use_type_invariant(&*self);
        }
        let ghost before = self@;
        let ghost key = path@;
        match map_get(&self.locks, path.as_slice()) {
            Some(count) => {
                if count <= 1 {
                    map_remove(&mut self.locks, path.as_slice());
                    assert(self@ =~= without_holder(before, key));
                    ReleaseOutcome::Freed
                } else {
                    map_insert(&mut self.locks, path, count - 1);
                    assert(self@ =~= without_holder(before, key));
                    ReleaseOutcome::StillHeld
                }
            },
            None => {
                assert(self@ =~= without_holder(before, key));
                ReleaseOutcome::Excess
            },
        }
    }
}

/// One step in the history of a lock table.
pub enum LockEvent {
    /// A handle on the path was created.
    Taken(Seq<u8>),
    /// A handle on the path was released.
    Released(Seq<u8>),
}

/// The table after one event.
pub open spec fn after_event(table: Map<Seq<u8>, nat>, event: LockEvent) -> Map<Seq<u8>, nat> {
    match event {
        LockEvent::Taken(path) => with_holder(table, path),
        LockEvent::Released(path) => without_holder(table, path),
    }
}

/// The table after a history of events, from `start`.
pub open spec fn after_events(start: Map<Seq<u8>, nat>, events: Seq<LockEvent>) -> Map<
    Seq<u8>,
    nat,
>
    decreases events.len(),
{
    if events.len() == 0 {
        start
    } else {
        after_event(after_events(start, events.drop_last()), events.last())
    }
}

/// How many handles on `path` the history created.
pub open spec fn taken(events: Seq<LockEvent>, path: Seq<u8>) -> nat
    decreases events.len(),
{
    if events.len() == 0 {
        0
    } else if events.last() == LockEvent::Taken(path) {
        taken(events.drop_last(), path) + 1
    } else {
        taken(events.drop_last(), path)
    }
}

/// How many handles on `path` the history released.
pub open spec fn released(events: Seq<LockEvent>, path: Seq<u8>) -> nat
    decreases events.len(),
{
    if events.len() == 0 {
        0
    } else if events.last() == LockEvent::Released(path) {
        released(events.drop_last(), path) + 1
    } else {
        released(events.drop_last(), path)
    }
}

/// At no point of the history was a handle released that was not held: by then
/// the releases of a path never exceed its holders at the start plus the
/// handles taken since.
pub open spec fn releases_only_held(start: Map<Seq<u8>, nat>, events: Seq<LockEvent>) -> bool {
    forall|k: int, path: Seq<u8>|
        0 <= k <= events.len() ==> #[trigger] released(events.take(k), path) <= holders(
            start,
            path,
        ) + taken(events.take(k), path)
}

/// Taking a path and releasing it again restores the table.
pub proof fn lemma_release_undoes_take(table: Map<Seq<u8>, nat>, path: Seq<u8>)
    requires
        no_stale_entries(table),
    ensures
        without_holder(with_holder(table, path), path) == table,
{
    assert(without_holder(with_holder(table, path), path) =~= table);
}

/// An event changes the count of its own path only, and never leaves an entry
/// with a count of zero.
pub proof fn lemma_event_is_local(table: Map<Seq<u8>, nat>, event: LockEvent, other: Seq<u8>)
    requires
        no_stale_entries(table),
    ensures
        no_stale_entries(after_event(table, event)),
        event != LockEvent::Taken(other) && event != LockEvent::Released(other) ==> holders(
            after_event(table, event),
            other,
        ) == holders(table, other) && (after_event(table, event).contains_key(other)
            <==> table.contains_key(other)),
{
}

/// A release of a path that has no entry changes nothing: the table afterwards
/// is the table before, so no other path's count is touched.
pub proof fn lemma_excess_release_is_harmless(table: Map<Seq<u8>, nat>, path: Seq<u8>)
    requires
        !table.contains_key(path),
    ensures
        without_holder(table, path) == table,
        release_outcome(table, path) == ReleaseOutcome::Excess,
{
    assert(without_holder(table, path) =~= table);
}

/// Over any history in which only held handles are released, the count of
/// every path is the number of handles on it that are currently held: those
/// at the start, plus those taken, minus those released. The path has an entry
/// exactly when that number is positive.
pub proof fn lemma_count_is_handles_held(
    start: Map<Seq<u8>, nat>,
    events: Seq<LockEvent>,
    path: Seq<u8>,
)
    requires
        no_stale_entries(start),
        releases_only_held(start, events),
    ensures
        holders(after_events(start, events), path) == holders(start, path) + taken(events, path)
            - released(events, path),
        after_events(start, events).contains_key(path) <==> holders(start, path) + taken(
            events,
            path,
        ) > released(events, path),
        no_stale_entries(after_events(start, events)),
    decreases events.len(),
{
    if events.len() > 0 {
        let prefix = events.drop_last();
        assert forall|k: int, p: Seq<u8>| 0 <= k <= prefix.len() implies #[trigger] released(
            prefix.take(k),
            p,
        ) <= holders(start, p) + taken(prefix.take(k), p) by {
            assert(prefix.take(k) =~= events.take(k));
        }
        lemma_count_is_handles_held(start, prefix, path);
        let table = after_events(start, prefix);
        assert(events.take(events.len() as int) =~= events);
        assert(released(events.take(events.len() as int), path) <= holders(start, path) + taken(
            events.take(events.len() as int),
            path,
        ));
        lemma_event_is_local(table, events.last(), path);
    }
}

} // verus!
