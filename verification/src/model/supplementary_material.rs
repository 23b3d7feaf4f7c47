//! The material of a task, for download.

use vstd::prelude::*;

verus! {

#[derive(Debug)]
pub struct SupplementaryMaterial {
    /// The bytes of the material in base64.
    pub material: String,
    pub filename: String,
}

} // verus!
