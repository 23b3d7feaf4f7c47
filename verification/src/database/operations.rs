//! Classes: who is enrolled in them, and the codes by which students join.

use crate::model::request::{all_three, both, ClientRequest};
use crate::time::Timestamp;
use vstd::prelude::*;

verus! {

/// How long a join code lasts, in seconds.
pub const JOIN_CODE_SECONDS: i64 = 3600;

/// Why a request about a class cannot be carried out.
#[derive(Clone, Copy, Debug, PartialEq, Eq, Structural)]
pub enum ClassError {
    /// The request lacks a field that the operation needs.
    MissingFields,
}

/// A class to create, with its first instructor.
#[derive(Debug)]
pub struct NewClass {
    pub class_number: String,
    pub class_description: String,
    pub instructor_user_name: String,
}

/// A user to enrol in a class.
#[derive(Debug)]
pub struct Enrollment {
    pub class_number: String,
    pub user_name: String,
    pub is_instructor: bool,
}

/// A code by which students join a class until it expires.
#[derive(Debug)]
pub struct JoinCode {
    pub join_code: String,
    pub class_number: String,
    pub expiration: Timestamp,
}

/// The class that a request creates: number, description and instructor
/// are all required.
pub fn new_class(obj: &ClientRequest) -> (r: Result<NewClass, ClassError>)
    ensures
        match r {
            Ok(class) => all_three(
                obj.class_number,
                obj.class_description,
                obj.instructor_user_name,
            ) == Some((class.class_number, class.class_description, class.instructor_user_name)),
            Err(e) => e == ClassError::MissingFields && all_three(
                obj.class_number,
                obj.class_description,
                obj.instructor_user_name,
            ) is None,
        },
{
    match obj.get_new_class() {
        Some((class_number, class_description, instructor_user_name)) => Ok(
            NewClass { class_number, class_description, instructor_user_name },
        ),
        None => Err(ClassError::MissingFields),
    }
}

/// The student that a request enrols: class and user name are required.
pub fn add_student(obj: &ClientRequest) -> (r: Result<Enrollment, ClassError>)
    ensures
        match r {
            Ok(e) => both(obj.class_number, obj.student_user_name) == Some(
                (e.class_number, e.user_name),
            ) && !e.is_instructor,
            Err(e) => e == ClassError::MissingFields && both(
                obj.class_number,
                obj.student_user_name,
            ) is None,
        },
{
    match obj.get_new_student() {
        Some((class_number, user_name)) => Ok(
            Enrollment { class_number, user_name, is_instructor: false },
        ),
        None => Err(ClassError::MissingFields),
    }
}

/// The instructor that a request appoints: class and user name are
/// required.
pub fn add_instructor(obj: &ClientRequest) -> (r: Result<Enrollment, ClassError>)
    ensures
        match r {
            Ok(e) => both(obj.class_number, obj.instructor_user_name) == Some(
                (e.class_number, e.user_name),
            ) && e.is_instructor,
            Err(e) => e == ClassError::MissingFields && both(
                obj.class_number,
                obj.instructor_user_name,
            ) is None,
        },
{
    match obj.get_new_instructor() {
        Some((class_number, user_name)) => Ok(
            Enrollment { class_number, user_name, is_instructor: true },
        ),
        None => Err(ClassError::MissingFields),
    }
}

/// The row of a join code that is generated at `now`: it expires one hour
/// later. There is none only where that hour leaves the range of instants.
pub fn add_join_code(join_code: String, class_number: String, now: Timestamp) -> (row: Option<
    JoinCode,
>)
    ensures
        row is Some <==> now.secs + JOIN_CODE_SECONDS <= i64::MAX,
        match row {
            Some(r) => r.join_code == join_code && r.class_number == class_number && r.expiration
                == (Timestamp { secs: (now.secs + JOIN_CODE_SECONDS) as i64, nanos: now.nanos }),
            None => true,
        },
{
    if now.secs > i64::MAX - JOIN_CODE_SECONDS {
        None
    } else {
        Some(
            JoinCode {
                join_code,
                class_number,
                expiration: Timestamp { secs: now.secs + JOIN_CODE_SECONDS, nanos: now.nanos },
            },
        )
    }
}

/// The class that a user joins by a code: the class of the code, as a
/// student, provided that the code exists and expires after `now`.
pub fn join_class(code: Option<&JoinCode>, user_name: String, now: &Timestamp) -> (r: Option<
    Enrollment,
>)
    ensures
        match r {
            Some(e) => code is Some && code->0.expiration.after(*now) && e.class_number
                == code->0.class_number && e.user_name == user_name && !e.is_instructor,
            None => code is None || !code->0.expiration.after(*now),
        },
{
    match code {
        Some(row) => if row.expiration.is_after(now) {
            Some(
                Enrollment {
                    class_number: row.class_number.clone(),
                    user_name,
                    is_instructor: false,
                },
            )
        } else {
            None
        },
        None => None,
    }
}

} // verus!
