//! The lifecycle of one ephemeral test database.
//!
//! A `TestDatabase` value is the verified model of one disposable
//! instance: which backing store it uses, which migrations its source
//! holds, which of them the bookkeeping record already lists as applied,
//! and how far its life has progressed. The value decides; an unverified
//! shell performs each decided action against the real storage and
//! database and reports the outcome back as an event.
//!
//! The phases move one way only: provisioning, then migrating, then
//! ready, then closed; a failure while provisioning or migrating moves
//! to the terminal failed phase instead, and no handle is ever exposed
//! from it. A handle is obtainable in the ready phase alone, and the
//! ready phase is reachable only once every unit of the source is
//! recorded as applied: that is the migration barrier.

use vstd::prelude::*;

use crate::migration::MigrationSource;
use crate::store::BackingMode;

verus! {

/// Why a provisioning run failed; each failure is terminal.
#[derive(Clone, Copy, Debug, PartialEq, Eq)]
pub enum ProvisionError {
    /// The stale artifact of a prior run could not be removed.
    Cleanup,
    /// The backing store could not be created or opened.
    StoreCreation,
    /// A migration unit failed to apply; its version names it.
    Migration { version: u64 },
}

/// Where in its life the instance stands.
#[derive(Clone, Copy, Debug, PartialEq, Eq)]
pub enum Phase {
    /// The backing store is being prepared; nothing is migrated yet.
    Provisioning,
    /// The store exists and migrations are being applied in order.
    Migrating,
    /// Every migration is applied; a handle may be exposed.
    Ready,
    /// The handle's life has ended and the store is reclaimed.
    Closed,
    /// Provisioning or migrating failed; no handle is ever exposed.
    Failed(ProvisionError),
}

/// What the shell must do next on behalf of the instance.
#[derive(Clone, Copy, Debug, PartialEq, Eq)]
pub enum Action {
    /// Remove whatever a prior run left at the fixed path.
    ClearStale,
    /// Create or open the backing store and its bookkeeping table.
    CreateStore,
    /// Apply the migration unit at this position of the source.
    ApplyMigration { index: usize },
}

/// What the shell reports back after performing an action.
#[derive(Clone, Copy, Debug, PartialEq, Eq)]
pub enum Event {
    /// The stale artifact is gone (or none existed).
    Cleared,
    /// The stale artifact could not be removed.
    CleanupFailed,
    /// The backing store is open and usable.
    StoreCreated,
    /// The backing store could not be created.
    StoreFailed,
    /// The migration unit just decided was applied and recorded.
    Applied,
    /// The migration unit just decided failed to apply.
    ApplyFailed,
}

/// A handle bound to one fully migrated instance.
///
/// A value of this type exists only for an instance that reached the
/// ready phase, so whoever holds it can only observe a schema to which
/// every migration of the source has been applied.
#[derive(Debug)]
pub struct PoolHandle {
    /// The address of the store this handle is bound to.
    pub mode: BackingMode,
    /// The version keys applied to the schema, in order: all of them.
    pub schema: Vec<u64>,
}

/// The verified model of one ephemeral database instance.
#[derive(Clone, Debug)]
pub struct TestDatabase {
    /// The address of the backing store.
    pub mode: BackingMode,
    /// The ordered migrations this instance is to receive.
    pub source: MigrationSource,
    /// Where in its life the instance stands.
    pub phase: Phase,
    /// Whether the fixed path is known clear of a prior run's artifact.
    pub cleared: bool,
    /// Whether the backing store has been created.
    pub store_created: bool,
    /// The bookkeeping record: version keys applied so far, in order.
    pub applied: Vec<u64>,
}

impl TestDatabase {
    /// The version key of the next unit to apply.
    pub open spec fn next_version(self) -> u64
        recommends
            self.applied@.len() < self.source.versions().len(),
    {
        self.source.versions()[self.applied@.len() as int]
    }

    /// Whether a handle may be exposed: true in the ready phase alone.
    pub open spec fn pool_available(self) -> bool {
        self.phase is Ready
    }

    /// The instance's invariant, established at construction and kept by
    /// every transition.
    pub open spec fn wf(self) -> bool {
        &&& self.source.wf()
        // The bookkeeping record is the prefix of the source's versions
        // that has been applied so far, in order.
        &&& self.applied@.len() <= self.source.versions().len()
        &&& self.applied@ == self.source.versions().take(self.applied@.len() as int)
        // An in-memory store never carries a stale artifact.
        &&& (self.mode is InMemory ==> self.cleared)
        // A fixed-path store is created only after the stale artifact of
        // a prior run is cleared.
        &&& (self.store_created && self.mode is FixedPath ==> self.cleared)
        // Before the store exists nothing can have been applied.
        &&& (self.phase is Provisioning ==> !self.store_created && self.applied@.len() == 0)
        // While migrating, the store exists and work remains.
        &&& (self.phase is Migrating ==> self.store_created && self.applied@.len()
            < self.source.versions().len())
        // Ready only once every unit is recorded as applied.
        &&& (self.phase is Ready ==> self.store_created && self.applied@.len()
            == self.source.versions().len())
        // A migration failure names exactly the unit that was due next.
        &&& (self.phase matches Phase::Failed(ProvisionError::Migration { version })
            ==> self.applied@.len() < self.source.versions().len() && version
            == self.next_version())
    }

    /// Begins the life of one instance: provisioning a store under the
    /// given mode, to receive the given migrations.
    pub fn new(mode: BackingMode, source: MigrationSource) -> (r: Self)
        requires
            source.wf(),
        ensures
            r.wf(),
            r.mode == mode,
            r.source == source,
            r.phase is Provisioning,
            r.applied@.len() == 0,
            !r.store_created,
            r.cleared == (mode is InMemory),
    {
        let cleared = mode.is_in_memory();
        let r = TestDatabase {
            mode,
            source,
            phase: Phase::Provisioning,
            cleared,
            store_created: false,
            applied: Vec::new(),
        };
        proof {
            assert(r.applied@ =~= r.source.versions().take(0));
        }
        r
    }

    /// The next action the shell must perform, if any: clearing comes
    /// before store creation, store creation before any migration, and
    /// migrations in source order; a ready, closed or failed instance
    /// asks for nothing.
    pub fn next_action(&self) -> (r: Option<Action>)
        requires
            self.wf(),
        ensures
            self.phase is Provisioning && !self.cleared ==> r == Some(Action::ClearStale),
            self.phase is Provisioning && self.cleared ==> r == Some(Action::CreateStore),
            self.phase is Migrating ==> (r matches Some(a) && a == (Action::ApplyMigration {
                index: self.applied@.len() as usize,
            })),
            !(self.phase is Provisioning || self.phase is Migrating) ==> r is None,
    {
        match self.phase {
            Phase::Provisioning => {
                if !self.cleared {
                    Some(Action::ClearStale)
                } else {
                    Some(Action::CreateStore)
                }
            },
            Phase::Migrating => Some(Action::ApplyMigration { index: self.applied.len() }),
            _ => None,
        }
    }

    /// Whether an event is one the instance is waiting for in its phase.
    pub open spec fn event_fits(self, ev: Event) -> bool {
        ||| (self.phase is Provisioning && !self.cleared && (ev is Cleared
            || ev is CleanupFailed))
        ||| (self.phase is Provisioning && self.cleared && (ev is StoreCreated
            || ev is StoreFailed))
        ||| (self.phase is Migrating && (ev is Applied || ev is ApplyFailed))
    }

    /// Takes the outcome the shell reports and moves the instance on.
    ///
    /// A success moves it forward: a cleared path awaits store creation,
    /// a created store begins migrating (or is ready at once when the
    /// source is empty), an applied unit is recorded and the last one
    /// makes the instance ready. A failure moves it to the terminal
    /// failed phase carrying the cause, a failed migration named by its
    /// version. An event the phase is not waiting for changes nothing.
    pub fn on_event(&mut self, ev: Event)
        requires
            old(self).wf(),
        ensures
            final(self).wf(),
            final(self).mode == old(self).mode,
            final(self).source == old(self).source,
            (old(self).phase is Provisioning && !old(self).cleared && ev is Cleared)
                ==> (final(self).phase is Provisioning && final(self).cleared
                && !final(self).store_created && final(self).applied@ == old(self).applied@),
            (old(self).phase is Provisioning && !old(self).cleared && ev is CleanupFailed)
                ==> (final(self).phase == Phase::Failed(ProvisionError::Cleanup)
                && final(self).applied@ == old(self).applied@),
            (old(self).phase is Provisioning && old(self).cleared && ev is StoreCreated)
                ==> (final(self).store_created && final(self).cleared
                && final(self).applied@ == old(self).applied@),
            (old(self).phase is Provisioning && old(self).cleared && ev is StoreCreated
                && old(self).source.versions().len() == 0) ==> final(self).phase is Ready,
            (old(self).phase is Provisioning && old(self).cleared && ev is StoreCreated
                && old(self).source.versions().len() > 0) ==> final(self).phase is Migrating,
            (old(self).phase is Provisioning && old(self).cleared && ev is StoreFailed)
                ==> (final(self).phase == Phase::Failed(ProvisionError::StoreCreation)
                && final(self).applied@ == old(self).applied@),
            (old(self).phase is Migrating && ev is Applied)
                ==> (final(self).applied@ == old(self).applied@.push(old(self).next_version())
                && final(self).store_created),
            (old(self).phase is Migrating && ev is Applied
                && old(self).applied@.len() + 1 == old(self).source.versions().len())
                ==> final(self).phase is Ready,
            (old(self).phase is Migrating && ev is Applied
                && old(self).applied@.len() + 1 < old(self).source.versions().len())
                ==> final(self).phase is Migrating,
            (old(self).phase is Migrating && ev is ApplyFailed)
                ==> (final(self).phase == (Phase::Failed(ProvisionError::Migration {
                version: old(self).next_version(),
            })) && final(self).applied@ == old(self).applied@),
            !old(self).event_fits(ev) ==> *final(self) == *old(self),
    {
        match self.phase {
            Phase::Provisioning => {
                if !self.cleared {
                    match ev {
                        Event::Cleared => {
                            self.cleared = true;
                        },
                        Event::CleanupFailed => {
                            self.phase = Phase::Failed(ProvisionError::Cleanup);
                        },
                        _ => {},
                    }
                } else {
                    match ev {
                        Event::StoreCreated => {
                            self.store_created = true;
                            if self.source.len() == 0 {
                                self.phase = Phase::Ready;
                            } else {
                                self.phase = Phase::Migrating;
                            }
                        },
                        Event::StoreFailed => {
                            self.phase = Phase::Failed(ProvisionError::StoreCreation);
                        },
                        _ => {},
                    }
                }
            },
            Phase::Migrating => {
                match ev {
                    Event::Applied => {
                        let idx = self.applied.len();
                        let v = self.source.get(idx).version;
                        self.applied.push(v);
                        proof {
                            let vs = old(self).source.versions();
                            let l = old(self).applied@.len() as int;
                            assert(vs.take(l + 1) =~= vs.take(l).push(vs[l]));
                        }
                        if self.applied.len() == self.source.len() {
                            self.phase = Phase::Ready;
                        }
                    },
                    Event::ApplyFailed => {
                        let idx = self.applied.len();
                        let v = self.source.get(idx).version;
                        self.phase = Phase::Failed(ProvisionError::Migration { version: v });
                    },
                    _ => {},
                }
            },
            _ => {},
        }
    }

    /// Whether the instance is ready: fully migrated and not yet closed.
    pub fn is_ready(&self) -> (r: bool)
        ensures
            r == self.pool_available(),
    {
        match self.phase {
            Phase::Ready => true,
            _ => false,
        }
    }

    /// Releases the handle, consuming the instance.
    ///
    /// A handle comes back exactly when the instance is ready, and it
    /// carries the full sequence of the source's versions as its schema
    /// record: no handle can observe a schema short of fully migrated.
    pub fn get_pool(self) -> (r: Option<PoolHandle>)
        requires
            self.wf(),
        ensures
            (r is Some) <==> self.pool_available(),
            r matches Some(h) ==> h.mode == self.mode && h.schema@ == self.source.versions(),
    {
        match self.phase {
            Phase::Ready => {
                proof {
                    let vs = self.source.versions();
                    assert(vs.take(self.applied@.len() as int) =~= vs);
                }
                let TestDatabase { mode, applied, .. } = self;
                Some(PoolHandle { mode, schema: applied })
            },
            _ => None,
        }
    }

    /// Ends the life of a ready instance; the shell reclaims the store.
    pub fn close(&mut self)
        requires
            old(self).wf(),
            old(self).phase is Ready,
        ensures
            final(self).wf(),
            final(self).phase is Closed,
            final(self).mode == old(self).mode,
            final(self).source == old(self).source,
            final(self).applied@ == old(self).applied@,
    {
        self.phase = Phase::Closed;
    }
}

/// Law: once an instance is ready, its bookkeeping record lists every
/// unit of the source as applied, in sequence-key order.
pub proof fn lemma_ready_is_complete(db: TestDatabase)
    requires
        db.wf(),
        db.phase is Ready,
    ensures
        db.applied@ == db.source.versions(),
        forall|i: int, j: int|
            0 <= i < j < db.applied@.len() ==> db.applied@[i] < db.applied@[j],
{
    assert(db.source.versions().take(db.applied@.len() as int) =~= db.source.versions());
}

/// Law: a ready instance leaves nothing pending. Every unit of its
/// source is already recorded as applied, so a plan computed against its
/// bookkeeping record selects no unit at all.
pub proof fn lemma_ready_leaves_nothing_pending(db: TestDatabase)
    requires
        db.wf(),
        db.phase is Ready,
    ensures
        forall|i: int|
            0 <= i < db.source.units@.len() ==> db.applied@.contains(
                db.source.units@[i].version,
            ),
{
    lemma_ready_is_complete(db);
    assert forall|i: int|
        0 <= i < db.source.units@.len() implies db.applied@.contains(
        db.source.units@[i].version,
    ) by {
        assert(db.applied@[i] == db.source.units@[i].version);
    }
}

/// Law: the migration barrier. As long as the bookkeeping record falls
/// short of the source, no handle is available, so no handle returned by
/// the public contract can observe a pre-migration schema.
pub proof fn lemma_migration_barrier(db: TestDatabase)
    requires
        db.wf(),
        db.applied@ != db.source.versions(),
    ensures
        !db.pool_available(),
{
    if db.phase is Ready {
        lemma_ready_is_complete(db);
    }
}

/// Law: under a fixed-path mode, the store is only ever created after
/// the stale artifact of a prior run has been cleared.
pub proof fn lemma_cleared_before_store(db: TestDatabase)
    requires
        db.wf(),
        db.mode is FixedPath,
        db.store_created,
    ensures
        db.cleared,
{
}

} // verus!
