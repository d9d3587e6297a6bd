//! The domain records that callers file in a store. The store itself never
//! looks inside them; turning a record into a payload string and back is a
//! collaborator's job, outside this crate's verified code.

use vstd::prelude::*;

verus! {

/// How an employee is paid.
#[derive(Clone, Copy, PartialEq, Eq, Structural, Debug)]
pub enum PayType {
    Salaried,
}

/// A named employee record.
#[derive(Clone)]
pub struct Employee {
    pub name: String,
}

impl View for Employee {
    type V = Seq<char>;

    open spec fn view(&self) -> Seq<char> {
        self.name@
    }
}

impl Employee {
    /// An employee with the given name.
    pub fn new(name: &str) -> (e: Employee)
        ensures
            e@ == name@,
    {
        Employee { name: name.to_owned() }
    }
}

} // verus!
