//! A request to log in.

use vstd::prelude::*;

verus! {

#[derive(Debug)]
pub struct LoginObject {
    pub user_name: String,
    pub pass: String,
}

} // verus!
