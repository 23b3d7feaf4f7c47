//! A file inside a submission.

use vstd::prelude::*;

verus! {

#[derive(Clone, Debug)]
pub struct FileObject {
    pub parent_path: String,
    pub name: String,
    pub data: String,
}

} // verus!
