//! An assignment in a list of assignments.

use vstd::prelude::*;

verus! {

#[derive(Debug)]
pub struct AssignmentItem {
    pub assignment_id: i32,
    pub assignment_name: String,
    pub assignment_description: Option<String>,
    pub assignment_deadline: String,
}

} // verus!
