//! The shared store: one single-owner store behind a reader/writer lock.
//! Every caller holding a reference to the same `SharedStore` works on the
//! same entries, so the store can be shared across threads; each operation is
//! one critical section, and the lock's invariant keeps the table and the
//! counter moving together.

use vstd::prelude::*;
use vstd::rwlock::RwLock;
use vstd::rwlock::RwLockPredicate;

use crate::db::DBError;
use crate::in_memory_db::InMemoryDB;

verus! {

/// The lock invariant: whatever store sits behind the lock is well formed, so
/// every critical section starts from a well-formed store and must hand one
/// back.
pub struct WellFormed {}

impl RwLockPredicate<InMemoryDB> for WellFormed {
    open spec fn inv(self, v: InMemoryDB) -> bool {
        v.wf()
    }
}

/// A store that many callers use at once, each through a shared reference.
/// Mutations take the write lock, reads the read lock: a read never runs
/// beside a mutation, and no two mutations interleave.
pub struct SharedStore {
    lock: RwLock<InMemoryDB, WellFormed>,
}

impl SharedStore {
    /// The lock guards well-formedness: this holds of every `SharedStore`
    /// that `new` built.
    pub closed spec fn wf(&self) -> bool {
        self.lock.pred() == (WellFormed {  })
    }

    /// A fresh shared store around an empty single-owner store.
    pub fn new() -> (r: SharedStore)
        ensures
            r.wf(),
    {
        SharedStore { lock: RwLock::new(InMemoryDB::new(), Ghost(WellFormed {  })) }
    }

    /// Files the payload under the next free identifier, in one critical
    /// section over counter and table, and returns the identifier, which is
    /// at least 1. `Err(DBError::Create)` only when every identifier has been
    /// handed out already; the lock itself cannot fail. What the identifier
    /// is relative to other callers' depends on the order in which the lock
    /// serializes them, so no more is promised here; the exact movement of
    /// the store is the single-owner store's `create` contract.
    pub fn create(&self, entry: &str) -> (r: Result<usize, DBError>)
        requires
            self.wf(),
        ensures
            r matches Ok(id) ==> 1 <= id,
            r matches Err(e) ==> e == DBError::Create,
    {
        let (mut store, handle) = self.lock.acquire_write();
        if store.last_index() < usize::MAX {
            let id = store.create(entry);
            handle.release_write(store);
            Ok(id)
        } else {
            handle.release_write(store);
            Err(DBError::Create)
        }
    }

    /// Hands back the payload that stood under the identifier at the moment
    /// the read lock was held; `Err(DBError::Read)` when the identifier had
    /// no entry then.
    pub fn read(&self, id: usize) -> (r: Result<String, DBError>)
        requires
            self.wf(),
        ensures
            r matches Err(e) ==> e == DBError::Read,
    {
        let handle = self.lock.acquire_read();
        let found = match handle.borrow().read(id) {
            Some(s) => Ok(s),
            None => Err(DBError::Read),
        };
        handle.release_read();
        found
    }

    /// Replaces the payload under the identifier if it had an entry when the
    /// write lock was held, and says whether it did; an absent identifier
    /// leaves the store untouched.
    pub fn update(&self, id: usize, entry: &str) -> (hit: bool)
        requires
            self.wf(),
    {
        let (mut store, handle) = self.lock.acquire_write();
        let hit = store.update(id, entry);
        handle.release_write(store);
        hit
    }

    /// Removes the identifier's entry if it had one when the write lock was
    /// held, and says whether it did. The counter is untouched: the
    /// identifier is retired, not recycled.
    pub fn delete(&self, id: usize) -> (hit: bool)
        requires
            self.wf(),
    {
        let (mut store, handle) = self.lock.acquire_write();
        let hit = store.delete(id);
        handle.release_write(store);
        hit
    }
}

} // verus!
