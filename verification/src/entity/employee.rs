//! Employees, as the server hands them out.

use vstd::prelude::*;

verus! {

/// The server identifies an employee by a 128-bit id.
pub type EmployeeId = u128;

/// One employee of the list: an id, a display name, and whether they have
/// already been picked as a speaker.
#[derive(Debug, PartialEq)]
pub struct Employee {
    pub uuid: EmployeeId,
    pub name: String,
    pub picked: bool,
}

impl Clone for Employee {
    fn clone(&self) -> (res: Self)
        ensures
            res == *self,
    {
        Employee { uuid: self.uuid, name: self.name.clone(), picked: self.picked }
    }
}

} // verus!
