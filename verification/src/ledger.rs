//! The record of how often each key's resource was constructed and destroyed.
//!
//! The counters live in a `dashmap::DashMap`. Verus cannot look inside it, so
//! the map is reached through three small functions whose contracts are
//! believed, not proved; everything else in this module is verified against
//! them.

use dashmap::DashMap;
use vstd::prelude::*;

verus! {

/// Identifier of a cacheable resource.
pub type Uuid = usize;

/// How often a key's resource was constructed (first) and destroyed (second).
pub type Counts = (usize, usize);

/// `dashmap::DashMap`, carried as an opaque value.
#[verifier::external_type_specification]
#[verifier::external_body]
#[verifier::reject_recursive_types(K)]
#[verifier::reject_recursive_types(V)]
#[verifier::reject_recursive_types(S)]
pub struct ExDashMap<K, V, S>(DashMap<K, V, S>);

/// The entries that a `DashMap` from keys to pairs of counters holds.
pub uninterp spec fn ledger_entries(m: DashMap<usize, (usize, usize)>) -> Map<usize, (usize, usize)>;

/// `DashMap::new`: the map it returns holds no entry.
#[verifier::external_body]
fn entries_new() -> (created: DashMap<usize, (usize, usize)>)
    ensures
        ledger_entries(created).dom() == Set::<usize>::empty(),
{
    DashMap::new()
}

/// `DashMap::get`: the value stored under `key`, copied out of the guard that
/// the map hands back, or `None` where the map has no such key.
#[verifier::external_body]
fn entries_get(m: &DashMap<usize, (usize, usize)>, key: usize) -> (found: Option<(usize, usize)>)
    ensures
        found == lookup(ledger_entries(*m), key),
{
    m.get(&key).map(|entry| *entry)
}

/// `DashMap::insert`: afterwards `key` maps to `value` and every other entry
/// is as before; the value that `key` had, if any, is returned.
#[verifier::external_body]
fn entries_insert(m: &mut DashMap<usize, (usize, usize)>, key: usize, value: (usize, usize)) -> (previous: Option<(usize, usize)>)
    ensures
        ledger_entries(*final(m)) == ledger_entries(*old(m)).insert(key, value),
        previous == lookup(ledger_entries(*old(m)), key),
{
    m.insert(key, value)
}

/// The counters recorded for `uuid`, if any.
pub open spec fn lookup(entries: Map<Uuid, Counts>, uuid: Uuid) -> Option<Counts> {
    if entries.contains_key(uuid) {
        Some(entries[uuid])
    } else {
        None
    }
}

/// The counters of `uuid`: both zero for a key that was never constructed.
pub open spec fn counts_of(entries: Map<Uuid, Counts>, uuid: Uuid) -> Counts {
    if entries.contains_key(uuid) {
        entries[uuid]
    } else {
        (0, 0)
    }
}

/// Number of constructions recorded for `uuid`.
pub open spec fn constructions(entries: Map<Uuid, Counts>, uuid: Uuid) -> nat {
    counts_of(entries, uuid).0 as nat
}

/// Number of destructions recorded for `uuid`.
pub open spec fn destructions(entries: Map<Uuid, Counts>, uuid: Uuid) -> nat {
    counts_of(entries, uuid).1 as nat
}

/// No key has been destroyed more often than it was constructed.
pub open spec fn balanced(entries: Map<Uuid, Counts>) -> bool {
    forall|uuid: Uuid| #[trigger]
        entries.contains_key(uuid) ==> entries[uuid].1 <= entries[uuid].0
}

/// One more construction of `uuid` still fits the counter.
pub open spec fn can_construct(entries: Map<Uuid, Counts>, uuid: Uuid) -> bool {
    constructions(entries, uuid) < usize::MAX
}

/// The ledger after one more construction of `uuid`.
pub open spec fn after_construction(entries: Map<Uuid, Counts>, uuid: Uuid) -> Map<Uuid, Counts> {
    let (built, dropped) = counts_of(entries, uuid);
    entries.insert(uuid, ((built + 1) as usize, dropped))
}

/// Some construction of `uuid` has not been matched by a destruction yet.
pub open spec fn can_destroy(entries: Map<Uuid, Counts>, uuid: Uuid) -> bool {
    destructions(entries, uuid) < constructions(entries, uuid)
}

/// The ledger after one more destruction of `uuid`.
pub open spec fn after_destruction(entries: Map<Uuid, Counts>, uuid: Uuid) -> Map<Uuid, Counts> {
    let (built, dropped) = counts_of(entries, uuid);
    entries.insert(uuid, (built, (dropped + 1) as usize))
}

/// Construction and destruction counters per key.
pub struct ResourceLedger {
    entries: DashMap<usize, (usize, usize)>,
}

impl View for ResourceLedger {
    type V = Map<Uuid, Counts>;

    closed spec fn view(&self) -> Map<Uuid, Counts> {
        ledger_entries(self.entries)
    }
}

impl ResourceLedger {
    /// A ledger without any record.
    pub fn new() -> (ledger: Self)
        ensures
            ledger@ == Map::<Uuid, Counts>::empty(),
            balanced(ledger@),
    {
        let entries = entries_new();
        ResourceLedger { entries }
    }

    /// The counters recorded for `uuid`, or `None` for a key that was never
    /// constructed.
    pub fn get(&self, uuid: Uuid) -> (found: Option<Counts>)
        ensures
            found == lookup(self@, uuid),
    {
        entries_get(&self.entries, uuid)
    }

    /// Sets the counters of `uuid` to `counts` and returns the counters it had,
    /// if any.
    pub fn insert(&mut self, uuid: Uuid, counts: Counts) -> (previous: Option<Counts>)
        ensures
            final(self)@ == old(self)@.insert(uuid, counts),
            previous == lookup(old(self)@, uuid),
            balanced(old(self)@) && counts.1 <= counts.0 ==> balanced(final(self)@),
    {
        entries_insert(&mut self.entries, uuid, counts)
    }

    /// Records one more construction of `uuid` and returns which construction
    /// of that key it was, counting from one. Where the counter is exhausted
    /// nothing is recorded and `None` is returned.
    pub fn record_construction(&mut self, uuid: Uuid) -> (generation: Option<usize>)
        ensures
            balanced(old(self)@) ==> balanced(final(self)@),
            can_construct(old(self)@, uuid) ==> generation == Some(
                (constructions(old(self)@, uuid) + 1) as usize,
            ) && final(self)@ == after_construction(old(self)@, uuid),
            !can_construct(old(self)@, uuid) ==> generation.is_none() && final(self)@ == old(self)@,
    {
        let (built, dropped) = match entries_get(&self.entries, uuid) {
            Some(counts) => counts,
            None => (0, 0),
        };
        if built == usize::MAX {
            return None;
        }
        let _ = entries_insert(&mut self.entries, uuid, (built + 1, dropped));
        Some(built + 1)
    }

    /// Records one more destruction of `uuid`. Returns `false`, and records
    /// nothing, where every recorded construction of `uuid` has been
    /// destroyed already.
    pub fn record_destruction(&mut self, uuid: Uuid) -> (recorded: bool)
        ensures
            balanced(old(self)@) ==> balanced(final(self)@),
            recorded == can_destroy(old(self)@, uuid),
            final(self)@ == (if recorded {
                after_destruction(old(self)@, uuid)
            } else {
                old(self)@
            }),
    {
        match entries_get(&self.entries, uuid) {
            Some((built, dropped)) => {
                if dropped < built {
                    let _ = entries_insert(&mut self.entries, uuid, (built, dropped + 1));
                    true
                } else {
                    false
                }
            },
            None => false,
        }
    }
}

} // verus!
