//! Ordered migration sources and the pending-migration planner.

use vstd::prelude::*;

verus! {

/// One schema-change unit: a versioned script.
#[derive(Clone, Debug)]
pub struct Migration {
    /// Monotonic sequence key; migrations apply in strictly increasing order.
    pub version: u64,
    /// Human-readable label, used when reporting a failing migration.
    pub name: String,
    /// The schema-change statement itself.
    pub sql: String,
}

/// An ordered sequence of schema-change units.
///
/// Well-formedness: the versions are strictly increasing, so every unit
/// has a distinct sequence key and the order of application is determined.
#[derive(Clone, Debug)]
pub struct MigrationSource {
    pub units: Vec<Migration>,
}

impl MigrationSource {
    /// The sequence of version keys, in source order.
    pub open spec fn versions(self) -> Seq<u64> {
        self.units@.map_values(|m: Migration| m.version)
    }

    /// Versions are strictly increasing.
    pub open spec fn wf(self) -> bool {
        forall|i: int, j: int|
            0 <= i < j < self.units@.len() ==> self.units@[i].version < self.units@[j].version
    }

    /// A source with no migration units.
    pub fn empty() -> (r: Self)
        ensures
            r.wf(),
            r.units@.len() == 0,
    {
        MigrationSource { units: Vec::new() }
    }

    /// Appends a unit if its version exceeds every version already present;
    /// returns whether it was accepted, leaving the source unchanged otherwise.
    pub fn push(&mut self, m: Migration) -> (accepted: bool)
        requires
            old(self).wf(),
        ensures
            final(self).wf(),
            accepted == (old(self).units@.len() == 0
                || old(self).units@.last().version < m.version),
            accepted ==> final(self).units@ == old(self).units@.push(m),
            !accepted ==> final(self).units@ == old(self).units@,
    {
        let n = self.units.len();
        if n == 0 || self.units[n - 1].version < m.version {
            self.units.push(m);
            true
        } else {
            false
        }
    }

    /// The number of migration units.
    pub fn len(&self) -> (r: usize)
        ensures
            r == self.units@.len(),
    {
        self.units.len()
    }

    /// The unit at a given position.
    pub fn get(&self, i: usize) -> (r: &Migration)
        requires
            i < self.units@.len(),
        ensures
            r == self.units@[i as int],
    {
        &self.units[i]
    }
}

/// Whether a version key occurs in the bookkeeping record.
pub fn contains_version(applied: &Vec<u64>, v: u64) -> (r: bool)
    ensures
        r == applied@.contains(v),
{
    let mut i: usize = 0;
    while i < applied.len()
        invariant
            0 <= i <= applied@.len(),
            forall|k: int| 0 <= k < i ==> applied@[k] != v,
        decreases applied@.len() - i,
    {
        if applied[i] == v {
            return true;
        }
        i = i + 1;
    }
    false
}

/// Computes which units of the source still have to be applied, given the
/// version keys that the bookkeeping record already lists as applied.
///
/// The result is the list of positions of the not-yet-applied units, in
/// source order: it contains exactly the positions whose version is absent
/// from the record, and the positions are strictly increasing.
pub fn plan(source: &MigrationSource, applied: &Vec<u64>) -> (r: Vec<usize>)
    ensures
        forall|k: int|
            0 <= k < r@.len() ==> r@[k] < source.units@.len()
                && !applied@.contains(source.units@[r@[k] as int].version),
        forall|i: int|
            0 <= i < source.units@.len() && !applied@.contains(source.units@[i].version)
                ==> r@.contains(i as usize),
        forall|k1: int, k2: int| 0 <= k1 < k2 < r@.len() ==> r@[k1] < r@[k2],
{
    let mut r: Vec<usize> = Vec::new();
    let mut i: usize = 0;
    while i < source.units.len()
        invariant
            0 <= i <= source.units@.len(),
            forall|k: int|
                0 <= k < r@.len() ==> r@[k] < i
                    && !applied@.contains(source.units@[r@[k] as int].version),
            forall|j: int|
                0 <= j < i && !applied@.contains(source.units@[j].version)
                    ==> r@.contains(j as usize),
            forall|k1: int, k2: int| 0 <= k1 < k2 < r@.len() ==> r@[k1] < r@[k2],
        decreases source.units@.len() - i,
    {
        if !contains_version(applied, source.units[i].version) {
            let ghost old_r = r@;
            r.push(i);
            proof {
                assert forall|j: int|
                    0 <= j < i + 1 && !applied@.contains(source.units@[j].version)
                        implies r@.contains(j as usize) by {
                    if j < i {
                        let k = choose|k: int| 0 <= k < old_r.len() && old_r[k] == j as usize;
                        assert(r@[k] == j as usize);
                    } else {
                        assert(r@[old_r.len() as int] == i as usize);
                    }
                }
            }
        }
        i = i + 1;
    }
    r
}

} // verus!
