//! The data the client works with.

pub mod employee;

use vstd::prelude::*;

verus! {

/// A message shown to the user when a request fails.
pub type ErrorMessage = String;

} // verus!
