//! A submission as an archive.

use vstd::prelude::*;

pub mod file_object;

verus! {

#[derive(Debug)]
pub struct SubmissionObject {
    pub zip_data: Vec<u8>,
}

} // verus!
