//! Use cases around the store. `AddEmployee` pairs a target identifier with
//! a store to act on; executing it is a recorded no-op, kept observable in
//! its contract.

use vstd::prelude::*;

verus! {

/// The add-employee use case: a target identifier and the store it would
/// act on.
pub struct AddEmployee {
    id: usize,
    db: crate::db::InMemoryDB,
}

impl AddEmployee {
    /// The identifier the use case is aimed at.
    pub closed spec fn target(&self) -> usize {
        self.id
    }

    /// The store the use case holds.
    pub closed spec fn store(&self) -> crate::db::InMemoryDB {
        self.db
    }

    /// A use case aimed at the given identifier, taking ownership of the
    /// store.
    pub fn new(id: usize, db: crate::db::InMemoryDB) -> (r: AddEmployee)
        ensures
            r.target() == id,
            r.store() == db,
    {
        AddEmployee { id, db }
    }

    /// Executing the use case changes nothing: neither the target nor the
    /// store moves.
    pub fn execute(&mut self)
        ensures
            *final(self) == *old(self),
    {
    }
}

} // verus!
