//! A test of an assignment file: input and output as text or as file names.

use vstd::prelude::*;

verus! {

#[derive(Debug)]
pub struct Test {
    pub input: Option<String>,
    pub output: Option<String>,
    pub input_file: Option<String>,
    pub output_file: Option<String>,
}

} // verus!
