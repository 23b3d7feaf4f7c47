//! What a student sees of a class.

use crate::score::Ratio;
use vstd::prelude::*;

verus! {

/// An assignment of a class with the student's score on it.
#[derive(Debug)]
pub struct AssignmentInfo {
    pub assignment_id: i32,
    pub assignment_name: String,
    pub assignment_description: Option<String>,
    pub assignment_deadline: String,
    /// The student's score; zero where there is none.
    pub assignment_score: Ratio,
}

/// An instructor of a class.
#[derive(Debug)]
pub struct InstructorInfo {
    pub first_name: String,
    pub last_name: String,
    pub email: String,
}

impl InstructorInfo {
    pub fn new(first_name: String, last_name: String, email: String) -> (info: InstructorInfo)
        ensures
            info.first_name == first_name,
            info.last_name == last_name,
            info.email == email,
    {
        InstructorInfo { first_name, last_name, email }
    }
}

/// A class: its assignments and its instructors.
#[derive(Debug)]
pub struct ClassInfo {
    pub assignments: Vec<AssignmentInfo>,
    pub instructors: Vec<InstructorInfo>,
}

impl ClassInfo {
    pub fn new(assignments: Vec<AssignmentInfo>, instructors: Vec<InstructorInfo>) -> (info:
        ClassInfo)
        ensures
            info.assignments == assignments,
            info.instructors == instructors,
    {
        ClassInfo { assignments, instructors }
    }
}

} // verus!
