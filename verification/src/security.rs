//! The authorization layers: which requests each layer lets through, and
//! with which status it turns the others away.

use crate::database::auth::{
    session_exists_and_valid, session_hash, session_is_admin, session_is_instructor,
    session_is_student, token_hash, SessionFacts,
};
use crate::time::Timestamp;
use vstd::prelude::*;

verus! {

/// What came of looking up the token of a request.
#[derive(Clone, Copy, Debug, PartialEq, Eq, Structural)]
pub enum Lookup {
    /// The request has no `Authorization` header.
    NoToken,
    /// The header is not well-formed base64.
    BadToken,
    /// The store could not be asked.
    Failed,
    /// The store answered.
    Found(SessionFacts),
}

/// The hash by which the session of a request is looked up, or why there is
/// no session to look up: the request has no token, or the token is not
/// well-formed base64.
pub fn presented(token: Option<&str>) -> (r: Result<Vec<u8>, Lookup>)
    ensures
        match r {
            Ok(hash) => token is Some && token_hash(token->0@) == Some(hash@),
            Err(lookup) => match token {
                None => lookup == Lookup::NoToken,
                Some(t) => lookup == Lookup::BadToken && token_hash(t@) is None,
            },
        },
{
    match token {
        None => Err(Lookup::NoToken),
        Some(t) => match session_hash(t) {
            Some(hash) => Ok(hash),
            None => Err(Lookup::BadToken),
        },
    }
}

/// A layer of the service, outermost first.
#[derive(Clone, Copy, Debug, PartialEq, Eq, Structural)]
pub enum Layer {
    Admin,
    Instructor,
    Student,
    Any,
}

/// Why a request is turned away.
#[derive(Clone, Copy, Debug, PartialEq, Eq, Structural)]
pub enum Rejection {
    /// The token is missing, malformed, unknown or expired.
    Unauthorized,
    /// The session is valid but lacks the role.
    Forbidden,
    /// The store failed.
    Internal,
}

impl Rejection {
    /// The HTTP status of the rejection.
    pub open spec fn spec_status(self) -> u16 {
        match self {
            Rejection::Unauthorized => 401,
            Rejection::Forbidden => 403,
            Rejection::Internal => 500,
        }
    }

    #[verifier::when_used_as_spec(spec_status)]
    pub fn status(self) -> (code: u16)
        ensures
            code == self.spec_status(),
    {
        match self {
            Rejection::Unauthorized => 401,
            Rejection::Forbidden => 403,
            Rejection::Internal => 500,
        }
    }

    /// The short public message of the rejection.
    pub fn message(self) -> (text: &'static str)
        ensures
            text@ == match self {
                Rejection::Internal => "Internal Server Error."@,
                _ => "Not Authorized."@,
            },
    {
        match self {
            Rejection::Internal => "Internal Server Error.",
            _ => "Not Authorized.",
        }
    }
}

/// What a layer does with a request.
#[derive(Clone, Copy, Debug, PartialEq, Eq, Structural)]
pub enum Decision {
    Forward,
    Reject(Rejection),
}

/// Whether a valid session has the role that a layer asks for. The
/// instructor and student layers ask for a role in the class that the
/// request names, and for an administrator where it names none.
pub open spec fn admitted(layer: Layer, class_given: bool, facts: SessionFacts, now: Timestamp) -> bool {
    match layer {
        Layer::Admin => facts.admin(now),
        Layer::Instructor => if class_given {
            facts.instructor(now)
        } else {
            facts.admin(now)
        },
        Layer::Student => if class_given {
            facts.student(now) || facts.instructor(now)
        } else {
            facts.admin(now)
        },
        Layer::Any => facts.valid(now),
    }
}

/// What a layer does with a request: a missing, malformed, unknown or
/// expired token is unauthorized; a failing store is an internal error; a
/// valid session without the role is forbidden; every other request passes.
pub open spec fn decision(layer: Layer, class_given: bool, lookup: Lookup, now: Timestamp) -> Decision {
    match lookup {
        Lookup::NoToken => Decision::Reject(Rejection::Unauthorized),
        Lookup::BadToken => Decision::Reject(Rejection::Unauthorized),
        Lookup::Failed => Decision::Reject(Rejection::Internal),
        Lookup::Found(facts) => if !facts.valid(now) {
            Decision::Reject(Rejection::Unauthorized)
        } else if admitted(layer, class_given, facts, now) {
            Decision::Forward
        } else {
            Decision::Reject(Rejection::Forbidden)
        },
    }
}

/// No layer lets a request through without a valid session, and a layer
/// forbids only what has one.
pub proof fn lemma_forward_needs_session(
    layer: Layer,
    class_given: bool,
    lookup: Lookup,
    now: Timestamp,
)
    ensures
        decision(layer, class_given, lookup, now) == Decision::Forward ==> lookup is Found
            && lookup->Found_0.valid(now),
        decision(layer, class_given, lookup, now) == Decision::Reject(Rejection::Forbidden)
            ==> lookup is Found && lookup->Found_0.valid(now),
        decision(layer, class_given, lookup, now) == Decision::Forward ==> decision(
            Layer::Any,
            class_given,
            lookup,
            now,
        ) == Decision::Forward,
{
}

/// The student layer admits the instructors of the class as well as its
/// students: whatever the instructor layer lets through, the student layer
/// lets through too.
pub proof fn lemma_instructors_pass_student_layer(class_given: bool, lookup: Lookup, now: Timestamp)
    ensures
        decision(Layer::Instructor, class_given, lookup, now) == Decision::Forward ==> decision(
            Layer::Student,
            class_given,
            lookup,
            now,
        ) == Decision::Forward,
{
}

/// Decides for any layer.
pub fn authorize(layer: Layer, class_given: bool, lookup: &Lookup, now: &Timestamp) -> (d: Decision)
    ensures
        d == decision(layer, class_given, *lookup, *now),
{
    match lookup {
        Lookup::NoToken => Decision::Reject(Rejection::Unauthorized),
        Lookup::BadToken => Decision::Reject(Rejection::Unauthorized),
        Lookup::Failed => Decision::Reject(Rejection::Internal),
        Lookup::Found(facts) => {
            if !session_exists_and_valid(facts, now) {
                return Decision::Reject(Rejection::Unauthorized);
            }
            let has_role = match layer {
                Layer::Admin => session_is_admin(facts, now),
                Layer::Instructor => if class_given {
                    session_is_instructor(facts, now)
                } else {
                    session_is_admin(facts, now)
                },
                Layer::Student => if class_given {
                    session_is_student(facts, now) || session_is_instructor(facts, now)
                } else {
                    session_is_admin(facts, now)
                },
                Layer::Any => true,
            };
            if has_role {
                Decision::Forward
            } else {
                Decision::Reject(Rejection::Forbidden)
            }
        },
    }
}

/// The three flags with which the outermost layer annotates a response, so
/// that the client knows what to show.
#[derive(Clone, Copy, Debug, PartialEq, Eq, Structural)]
pub struct RoleHeaders {
    pub admin: bool,
    pub instructor: bool,
    pub student: bool,
}

/// The flags of a session: whether its user is an administrator, and what
/// the user is in the class that the request names.
pub open spec fn role_headers_of(class_given: bool, facts: SessionFacts, now: Timestamp) -> RoleHeaders {
    RoleHeaders {
        admin: facts.admin(now),
        instructor: class_given && facts.instructor(now),
        student: class_given && facts.student(now),
    }
}

/// Works out the flags for a response.
pub fn role_headers(class_given: bool, facts: &SessionFacts, now: &Timestamp) -> (flags: RoleHeaders)
    ensures
        flags == role_headers_of(class_given, *facts, *now),
{
    RoleHeaders {
        admin: session_is_admin(facts, now),
        instructor: class_given && session_is_instructor(facts, now),
        student: class_given && session_is_student(facts, now),
    }
}

/// The text of a flag in a header: `true` or `false`.
pub fn flag_text(flag: bool) -> (text: &'static str)
    ensures
        text@ == if flag {
            "true"@
        } else {
            "false"@
        },
{
    if flag {
        "true"
    } else {
        "false"
    }
}

/// The layer of every authenticated user: any valid session passes.
pub fn handle_basic_auth(class_given: bool, lookup: &Lookup, now: &Timestamp) -> (d: Decision)
    ensures
        d == decision(Layer::Any, class_given, *lookup, *now),
{
    authorize(Layer::Any, class_given, lookup, now)
}

/// The layer of the students of a class: its students and its instructors
/// pass; where the request names no class, administrators pass.
pub fn handle_student_auth(class_given: bool, lookup: &Lookup, now: &Timestamp) -> (d: Decision)
    ensures
        d == decision(Layer::Student, class_given, *lookup, *now),
{
    authorize(Layer::Student, class_given, lookup, now)
}

/// The layer of the instructors of a class: its instructors pass; where the
/// request names no class, administrators pass.
pub fn handle_instructor_auth(class_given: bool, lookup: &Lookup, now: &Timestamp) -> (d: Decision)
    ensures
        d == decision(Layer::Instructor, class_given, *lookup, *now),
{
    authorize(Layer::Instructor, class_given, lookup, now)
}

/// The layer of the administrators.
pub fn handle_admin_auth(lookup: &Lookup, now: &Timestamp) -> (d: Decision)
    ensures
        d == decision(Layer::Admin, false, *lookup, *now),
{
    authorize(Layer::Admin, false, lookup, now)
}

} // verus!
