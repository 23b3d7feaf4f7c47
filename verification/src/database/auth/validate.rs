//! Validation of a hashed session against what the store knows about it.

use crate::database::auth::{
    session_exists_and_valid, session_is_admin, session_is_instructor, session_is_student,
    SessionFacts,
};
use crate::model::validation_object::{ValidationObject, ValidationResponse};
use crate::time::Timestamp;
use vstd::prelude::*;

verus! {

/// Whether the session exists and has not expired.
pub fn validate_token(facts: &SessionFacts, now: &Timestamp) -> (r: bool)
    ensures
        r == facts.valid(*now),
{
    session_exists_and_valid(facts, now)
}

/// Whether the session belongs to a student of the class to validate for.
/// Without a class there is nothing to be a student of.
pub fn validate_student(validation: &ValidationObject, facts: &SessionFacts, now: &Timestamp) -> (r:
    bool)
    ensures
        r == (validation.class is Some && facts.student(*now)),
{
    validation.class.is_some() && session_is_student(facts, now)
}

/// Whether the session belongs to an instructor of the class to validate
/// for. Without a class there is nothing to instruct.
pub fn validate_instructor(
    validation: &ValidationObject,
    facts: &SessionFacts,
    now: &Timestamp,
) -> (r: bool)
    ensures
        r == (validation.class is Some && facts.instructor(*now)),
{
    validation.class.is_some() && session_is_instructor(facts, now)
}

/// Whether the session belongs to an administrator.
pub fn validate_admin(facts: &SessionFacts, now: &Timestamp) -> (r: bool)
    ensures
        r == facts.admin(*now),
{
    session_is_admin(facts, now)
}

/// Everything that a session may do in the class to validate for.
pub fn validate(validation: &ValidationObject, facts: &SessionFacts, now: &Timestamp) -> (r:
    ValidationResponse)
    ensures
        r == (ValidationResponse {
            is_valid: facts.valid(*now),
            is_admin: facts.admin(*now),
            is_instructor: validation.class is Some && facts.instructor(*now),
            is_student: validation.class is Some && facts.student(*now),
        }),
{
    ValidationResponse {
        is_valid: validate_token(facts, now),
        is_admin: validate_admin(facts, now),
        is_instructor: validate_instructor(validation, facts, now),
        is_student: validate_student(validation, facts, now),
    }
}

} // verus!
