//! A file of a submission.

use vstd::prelude::*;

verus! {

#[derive(Debug)]
pub struct FileObject {
    pub parent_path: String,
    pub name: String,
    pub data: String,
}

} // verus!
