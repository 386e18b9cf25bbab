//! Versioned database handles and the manager that owns them. The manager
//! keeps the handles in insertion order; the current database is the one of
//! highest version, ties broken by the latest entry.

use vstd::prelude::*;
use crate::version::{lemma_version_order_total, version_le, Version};

verus! {

/// A database server address paired with the semantic version it serves.
#[derive(Debug)]
pub struct VersionedDatabase {
    pub server_addr: String,
    pub version: Version,
}

impl VersionedDatabase {
    pub fn new(server_addr: String, version: Version) -> (r: VersionedDatabase)
        ensures
            r.server_addr == server_addr,
            r.version == version,
    {
        VersionedDatabase { server_addr, version }
    }
}

/// The index of the highest-version entry, ties broken by the latest entry.
pub open spec fn best_index(dbs: Seq<VersionedDatabase>) -> int
    decreases dbs.len(),
{
    if dbs.len() <= 1 {
        0
    } else {
        let rest = best_index(dbs.drop_last());
        if version_le(dbs[rest].version, dbs.last().version) {
            dbs.len() - 1
        } else {
            rest
        }
    }
}

/// `best_index` lies in range, no entry's version is above it, and every
/// later entry's version is strictly below it.
pub proof fn lemma_best_index(dbs: Seq<VersionedDatabase>)
    requires
        dbs.len() > 0,
    ensures
        0 <= best_index(dbs) < dbs.len(),
        forall|i: int|
            0 <= i < dbs.len() ==> version_le(dbs[i].version, dbs[best_index(dbs)].version),
        forall|i: int|
            best_index(dbs) < i < dbs.len() ==> !version_le(
                dbs[best_index(dbs)].version,
                dbs[i].version,
            ),
    decreases dbs.len(),
{
    if dbs.len() > 1 {
        let rest = best_index(dbs.drop_last());
        lemma_best_index(dbs.drop_last());
        assert(forall|i: int| 0 <= i < dbs.len() - 1 ==> dbs.drop_last()[i] == dbs[i]);
        if version_le(dbs[rest].version, dbs.last().version) {
            assert(best_index(dbs) == dbs.len() - 1);
            assert forall|i: int| 0 <= i < dbs.len() implies version_le(
                dbs[i].version,
                dbs.last().version,
            ) by {
                if i < dbs.len() - 1 {
                    assert(version_le(dbs[i].version, dbs[rest].version));
                }
            }
        } else {
            assert(best_index(dbs) == rest);
            assert(version_le(dbs.last().version, dbs[rest].version)) by {
                lemma_version_order_total(dbs[rest].version, dbs.last().version);
            }
        }
    }
}

/// Owns the set of versioned database handles built on initialize.
#[derive(Debug)]
pub struct DatabaseManager {
    databases: Vec<VersionedDatabase>,
}

impl View for DatabaseManager {
    type V = Seq<VersionedDatabase>;

    closed spec fn view(&self) -> Seq<VersionedDatabase> {
        self.databases@
    }
}

impl DatabaseManager {
    /// Builds a manager over the handles, keeping their order.
    pub fn new_from_databases(databases: Vec<VersionedDatabase>) -> (r: DatabaseManager)
        ensures
            r@ == databases@,
    {
        DatabaseManager { databases }
    }

    pub fn len(&self) -> (r: usize)
        ensures
            r == self@.len(),
    {
        self.databases.len()
    }

    /// The entry at a position, in insertion order.
    pub fn get(&self, i: usize) -> (r: &VersionedDatabase)
        requires
            i < self@.len(),
        ensures
            *r == self@[i as int],
    {
        &self.databases[i]
    }

    /// Resolves the current database: the entry of highest version, ties
    /// broken by the latest entry. `None` exactly when the manager is empty.
    pub fn current(&self) -> (r: Option<&VersionedDatabase>)
        ensures
            r is Some <==> self@.len() > 0,
            r matches Some(d) ==> *d == self@[best_index(self@)],
    {
        if self.databases.len() == 0 {
            return None;
        }
        let mut best: usize = 0;
        let mut i: usize = 1;
        while i < self.databases.len()
            invariant
                self@.len() > 0,
                0 <= best < i <= self@.len(),
                best == best_index(self@.subrange(0, i as int)),
            decreases self@.len() - i,
        {
            proof {
                assert(self@.subrange(0, i + 1).drop_last() =~= self@.subrange(0, i as int));
                assert(self@.subrange(0, i + 1).last() == self@[i as int]);
            }
            if self.databases[best].version.le(&self.databases[i].version) {
                best = i;
            }
            i = i + 1;
        }
        proof {
            assert(self@.subrange(0, self@.len() as int) =~= self@);
        }
        Some(&self.databases[best])
    }
}

} // verus!
