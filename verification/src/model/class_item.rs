//! A class in a list of classes.

use vstd::prelude::*;

verus! {

#[derive(Debug)]
pub struct ClassItem {
    pub class_number: String,
    pub class_description: Option<String>,
}

} // verus!
