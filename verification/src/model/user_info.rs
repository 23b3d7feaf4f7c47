//! A user as other users see them.

use vstd::prelude::*;

verus! {

#[derive(Debug)]
pub struct UserInfo {
    pub first_name: String,
    pub last_name: String,
    pub username: String,
}

impl UserInfo {
    pub fn new(first_name: String, last_name: String, username: String) -> (info: UserInfo)
        ensures
            info.first_name == first_name,
            info.last_name == last_name,
            info.username == username,
    {
        UserInfo { first_name, last_name, username }
    }
}

} // verus!
