//! A submission as a list of files.

use crate::submission_object::file_object::FileObject;
use vstd::prelude::*;

pub mod file_object;

verus! {

#[derive(Debug)]
pub struct SubmissionObject {
    pub assignment_id: u64,
    pub banner_id: String,
    pub lang: String,
    pub files: Vec<FileObject>,
}

} // verus!
