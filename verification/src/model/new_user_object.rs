//! A request to sign up.

use vstd::prelude::*;

verus! {

#[derive(Debug)]
pub struct NewUserObject {
    pub first_name: String,
    pub last_name: String,
    pub user_name: String,
    pub email: String,
    pub pass: String,
}

} // verus!
