//! Backing-store addressing and the isolation of distinct stores.

use vstd::prelude::*;

verus! {

/// How one database instance is backed.
///
/// An in-memory store is addressed by a token that the caller chooses
/// freshly for each provisioning, so two instances with distinct tokens
/// occupy disjoint memory spaces. A fixed-path store is addressed by its
/// filesystem path; two provisionings that share a path share the store,
/// and must therefore be serialized by the caller.
#[derive(Clone, Debug, PartialEq, Eq)]
pub enum BackingMode {
    InMemory { token: u64 },
    FixedPath { path: String },
}

impl BackingMode {
    /// Whether this is the in-memory mode.
    pub fn is_in_memory(&self) -> (r: bool)
        ensures
            r == (self is InMemory),
    {
        match self {
            BackingMode::InMemory { .. } => true,
            BackingMode::FixedPath { .. } => false,
        }
    }
}

/// The world of backing stores, as the rows each one holds: a map from a
/// store's address to the sequence of rows written to it.
///
/// One write appends one row to the store at one address and touches no
/// other store.
pub open spec fn store_write(
    stores: Map<BackingMode, Seq<u64>>,
    at: BackingMode,
    row: u64,
) -> Map<BackingMode, Seq<u64>> {
    stores.insert(at, stores[at].push(row))
}

/// A sequence of writes, all through the store at one address.
pub open spec fn store_write_all(
    stores: Map<BackingMode, Seq<u64>>,
    at: BackingMode,
    rows: Seq<u64>,
) -> Map<BackingMode, Seq<u64>>
    decreases rows.len(),
{
    if rows.len() == 0 {
        stores
    } else {
        store_write_all(store_write(stores, at, rows[0]), at, rows.drop_first())
    }
}

/// Law: writes through one store are never visible through another.
/// However many rows are written at one address, a store at any other
/// address holds exactly the rows it held before.
pub proof fn lemma_write_all_preserves_others(
    stores: Map<BackingMode, Seq<u64>>,
    a: BackingMode,
    b: BackingMode,
    rows: Seq<u64>,
)
    requires
        a != b,
        stores.contains_key(b),
    ensures
        store_write_all(stores, a, rows).contains_key(b),
        store_write_all(stores, a, rows)[b] == stores[b],
    decreases rows.len(),
{
    if rows.len() > 0 {
        lemma_write_all_preserves_others(store_write(stores, a, rows[0]), a, b, rows.drop_first());
    }
}

/// Law: writes through a store are all visible through it, in order.
/// After a sequence of writes at one address, the store there holds the
/// rows it held before, followed by exactly the rows written.
pub proof fn lemma_write_all_visible_to_owner(
    stores: Map<BackingMode, Seq<u64>>,
    a: BackingMode,
    rows: Seq<u64>,
)
    requires
        stores.contains_key(a),
    ensures
        store_write_all(stores, a, rows).contains_key(a),
        store_write_all(stores, a, rows)[a] == stores[a] + rows,
    decreases rows.len(),
{
    if rows.len() == 0 {
        assert(stores[a] + rows =~= stores[a]);
    } else {
        let stores1 = store_write(stores, a, rows[0]);
        lemma_write_all_visible_to_owner(stores1, a, rows.drop_first());
        assert(stores1[a] + rows.drop_first() =~= stores[a] + rows);
    }
}

/// Law: in-memory instances with distinct tokens are fully isolated.
/// Two provisionings that choose distinct tokens address distinct stores,
/// and the rows each one writes are visible only through its own store.
pub proof fn lemma_in_memory_isolation(
    stores: Map<BackingMode, Seq<u64>>,
    t1: u64,
    t2: u64,
    rows1: Seq<u64>,
)
    requires
        t1 != t2,
        stores.contains_key((BackingMode::InMemory { token: t1 })),
        stores.contains_key((BackingMode::InMemory { token: t2 })),
    ensures
        (BackingMode::InMemory { token: t1 }) != (BackingMode::InMemory { token: t2 }),
        store_write_all(stores, (BackingMode::InMemory { token: t1 }), rows1)[(
        BackingMode::InMemory { token: t2 })] == stores[(BackingMode::InMemory { token: t2 })],
        store_write_all(stores, (BackingMode::InMemory { token: t1 }), rows1)[(
        BackingMode::InMemory { token: t1 })] == stores[(BackingMode::InMemory { token: t1 })]
            + rows1,
{
    let a = BackingMode::InMemory { token: t1 };
    let b = BackingMode::InMemory { token: t2 };
    lemma_write_all_preserves_others(stores, a, b, rows1);
    lemma_write_all_visible_to_owner(stores, a, rows1);
}

} // verus!
