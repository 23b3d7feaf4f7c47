//! The score of one student on one assignment.

use crate::score::Ratio;
use vstd::prelude::*;

verus! {

/// A student's score on an assignment. There is no score where the
/// assignment has no test.
#[derive(Debug)]
pub struct AssignmentGrade {
    pub name: String,
    pub username: String,
    pub score: Option<Ratio>,
}

pub struct AssignmentGradeView {
    pub name: Seq<char>,
    pub username: Seq<char>,
    pub score: Option<Ratio>,
}

impl View for AssignmentGrade {
    type V = AssignmentGradeView;

    open spec fn view(&self) -> AssignmentGradeView {
        AssignmentGradeView { name: self.name@, username: self.username@, score: self.score }
    }
}

} // verus!
