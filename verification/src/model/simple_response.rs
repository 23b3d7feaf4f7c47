//! A reply that carries a text and what its reader is allowed to do.

use vstd::prelude::*;

verus! {

/// What the reader of a reply is.
#[derive(Clone, Copy, Debug, PartialEq, Eq, Structural)]
pub struct Permissions {
    pub admin: bool,
    pub instructor: bool,
    pub student: bool,
    pub user: bool,
}

#[derive(Debug)]
pub struct SimpleResponse {
    pub body: String,
    pub perms: Permissions,
}

impl SimpleResponse {
    pub fn new(
        body: String,
        is_admin: bool,
        is_instructor: bool,
        is_student: bool,
        is_user: bool,
    ) -> (response: SimpleResponse)
        ensures
            response.body == body,
            response.perms == (Permissions {
                admin: is_admin,
                instructor: is_instructor,
                student: is_student,
                user: is_user,
            }),
    {
        SimpleResponse {
            body,
            perms: Permissions {
                admin: is_admin,
                instructor: is_instructor,
                student: is_student,
                user: is_user,
            },
        }
    }
}

} // verus!
