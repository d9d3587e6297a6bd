//! A single-owner map of employee records, keyed by identifiers that the
//! caller chooses. Unlike the payload store, it does not assign identifiers:
//! it only files records under them.

use std::collections::HashMap;
use vstd::prelude::*;

use crate::entities::Employee;

verus! {

broadcast use vstd::std_specs::hash::group_hash_axioms;

/// An identifier-keyed map of employee records.
pub struct PayrollDB {
    db: HashMap<usize, Employee>,
}

impl PayrollDB {
    /// The abstract table: identifier to the name of the employee filed
    /// under it.
    pub closed spec fn table(&self) -> Map<usize, Seq<char>> {
        self.db@.map_values(|e: Employee| e@)
    }

    /// An empty payroll.
    pub fn new() -> (r: PayrollDB)
        ensures
            r.table() == Map::<usize, Seq<char>>::empty(),
    {
        let r = PayrollDB { db: HashMap::new() };
        proof {
            assert(r.table() =~= Map::<usize, Seq<char>>::empty());
        }
        r
    }

    /// Files the employee under the identifier, replacing whatever record
    /// stood there.
    pub fn add_employee(&mut self, id: usize, employee: &Employee)
        ensures
            final(self).table() == old(self).table().insert(id, employee@),
    {
        self.db.insert(id, Employee { name: employee.name.clone() });
        proof {
            assert(self.table() =~= old(self).table().insert(id, employee@));
        }
    }

    /// The record under the identifier, if any.
    pub fn read(&self, id: usize) -> (r: Option<&Employee>)
        ensures
            match r {
                Some(e) => self.table().contains_key(id) && e@ == self.table()[id],
                None => !self.table().contains_key(id),
            },
    {
        self.db.get(&id)
    }
}

} // verus!
