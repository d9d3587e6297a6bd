//! The store behind a typed CRUD contract. `InMemoryDB` here owns a
//! single-owner store and surfaces lookup misses as `DBError` values instead
//! of options, through the `InMemoryDBCrud` trait.

use vstd::prelude::*;

verus! {

/// What a store operation can fail with.
#[derive(Debug, PartialEq, Eq, Structural)]
pub enum DBError {
    /// `create` could not complete: either every identifier has been handed
    /// out already, or an unverified front could not obtain exclusive access
    /// to the shared state (a poisoned lock). The store type below never
    /// produces it: its `create` is total on the inputs its contract admits.
    Create,
    /// The requested identifier has no entry: never created, or deleted.
    Read,
}

/// The CRUD contract of an identifier-keyed payload store. An implementor
/// exposes its state as a table from identifiers to payload characters and a
/// counter holding the last identifier assigned; the operations say exactly
/// how the pair moves.
pub trait InMemoryDBCrud: Sized {
    /// The table held by the store: identifier to payload characters.
    spec fn table(&self) -> Map<usize, Seq<char>>;

    /// The last identifier assigned; 0 before the first `create`.
    spec fn last_id(&self) -> usize;

    /// Every identifier in the table lies between 1 and `last_id`.
    spec fn wf(&self) -> bool;

    /// Assigns the next identifier, files the payload under it, and returns
    /// it. The table and the counter move together: no call sees one advanced
    /// without the other.
    fn create(&mut self, entry: &str) -> (r: Result<usize, DBError>)
        requires
            old(self).wf(),
            old(self).last_id() < usize::MAX,
        ensures
            final(self).wf(),
            final(self).last_id() == old(self).last_id() + 1,
            r == Ok::<usize, DBError>(final(self).last_id()),
            final(self).table() == old(self).table().insert(
                (old(self).last_id() + 1) as usize,
                entry@,
            ),
    ;

    /// Hands the payload under the identifier back by value; fails with
    /// `DBError::Read` exactly when the identifier has no entry.
    fn read(&self, id: usize) -> (r: Result<String, DBError>)
        ensures
            match r {
                Ok(s) => self.table().contains_key(id) && s@ == self.table()[id],
                Err(e) => !self.table().contains_key(id) && e == DBError::Read,
            },
    ;

    /// Replaces the payload under the identifier if there is one; an absent
    /// identifier leaves the store untouched. Returns whether the target
    /// existed, so the no-op is observable.
    fn update(&mut self, id: usize, entry: &str) -> (hit: bool)
        requires
            old(self).wf(),
        ensures
            final(self).wf(),
            final(self).last_id() == old(self).last_id(),
            hit == old(self).table().contains_key(id),
            hit ==> final(self).table() == old(self).table().insert(id, entry@),
            !hit ==> final(self).table() == old(self).table(),
    ;

    /// Removes the identifier's entry if there is one; the counter stays as
    /// it is, so the identifier is retired for good. Returns whether the
    /// target existed.
    fn delete(&mut self, id: usize) -> (hit: bool)
        requires
            old(self).wf(),
        ensures
            final(self).wf(),
            final(self).last_id() == old(self).last_id(),
            hit == old(self).table().contains_key(id),
            final(self).table() == old(self).table().remove(id),
    ;
}

/// A store that meets the CRUD contract by owning a single-owner store and
/// mapping its misses to `DBError` values.
pub struct InMemoryDB {
    state: crate::in_memory_db::InMemoryDB,
}

impl InMemoryDB {
    /// A fresh store: no entries, no identifier assigned yet.
    pub fn new() -> (r: InMemoryDB)
        ensures
            r.wf(),
            r.last_id() == 0,
            r.table() == Map::<usize, Seq<char>>::empty(),
    {
        InMemoryDB { state: crate::in_memory_db::InMemoryDB::new() }
    }

    /// The last identifier assigned so far, as a run-time value; callers can
    /// check it against `usize::MAX` before a `create`.
    pub fn last_index(&self) -> (r: usize)
        ensures
            r == self.last_id(),
    {
        self.state.last_index()
    }
}

impl InMemoryDBCrud for InMemoryDB {
    closed spec fn table(&self) -> Map<usize, Seq<char>> {
        self.state.table()
    }

    closed spec fn last_id(&self) -> usize {
        self.state.last_id()
    }

    closed spec fn wf(&self) -> bool {
        self.state.wf()
    }

    fn create(&mut self, entry: &str) -> (r: Result<usize, DBError>) {
        Ok(self.state.create(entry))
    }

    fn read(&self, id: usize) -> (r: Result<String, DBError>) {
        match self.state.read(id) {
            Some(s) => Ok(s),
            None => Err(DBError::Read),
        }
    }

    fn update(&mut self, id: usize, entry: &str) -> (hit: bool) {
        self.state.update(id, entry)
    }

    fn delete(&mut self, id: usize) -> (hit: bool) {
        self.state.delete(id)
    }
}

} // verus!
