//! The preferences of an assignment file.

use vstd::prelude::*;

verus! {

#[derive(Debug, Default)]
pub struct Preferences {
    pub assignment_name: Option<String>,
    pub description: Option<String>,
    /// The time limit of a test run in seconds.
    pub timeout: Option<u64>,
}

} // verus!
