//! Requests to validate a session, before and after the token is hashed.

use crate::database::auth::{session_hash, token_hash};
use vstd::prelude::*;

verus! {

/// A session to validate, by the hash under which the store keeps it.
#[derive(Clone, Debug)]
pub struct ValidationObject {
    pub class: Option<String>,
    pub session_hash: Vec<u8>,
}

/// A session to validate, by the token that the client holds.
#[derive(Clone, Debug)]
pub struct ValidationRequest {
    pub class: Option<String>,
    pub session_base: String,
}

/// What a session may do.
#[derive(Clone, Copy, Debug, PartialEq, Eq, Structural)]
pub struct ValidationResponse {
    pub is_valid: bool,
    pub is_admin: bool,
    pub is_instructor: bool,
    pub is_student: bool,
}

/// Hashes a token for validation in a class. There is nothing to validate
/// where the token is not well-formed base64.
pub fn validation(class: Option<String>, session_base: &str) -> (object: Option<ValidationObject>)
    ensures
        match object {
            Some(o) => o.class == class && token_hash(session_base@) == Some(o.session_hash@),
            None => token_hash(session_base@) is None,
        },
{
    match session_hash(session_base) {
        Some(hash) => Some(ValidationObject { class, session_hash: hash }),
        None => None,
    }
}

impl ValidationRequest {
    /// The request with its token hashed.
    pub fn into_validation(self) -> (object: Option<ValidationObject>)
        ensures
            match object {
                Some(o) => o.class == self.class && token_hash(self.session_base@) == Some(
                    o.session_hash@,
                ),
                None => token_hash(self.session_base@) is None,
            },
    {
        validation(self.class, self.session_base.as_str())
    }
}

} // verus!
