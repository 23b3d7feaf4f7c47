//! Sessions: how a session is issued, how the token that a client presents
//! leads to its row, and what a session may do.

use crate::digest::{sha512, sha512_of};
use crate::encoding::{base64_bytes, base64_decode, base64_encode, base64_of};
use crate::random::random_session_id;
use crate::time::Timestamp;
use vstd::prelude::*;

pub mod validate;

verus! {

/// How long a session lasts, in seconds.
pub const SESSION_SECONDS: i64 = 3600;

/// The token that a client holds: the base64 of the sixteen bytes of which
/// the store keeps only the hash.
#[derive(Debug)]
pub struct Session {
    session_base: String,
}

/// The hash under which the store keeps the session of a token, if the
/// token is well-formed base64.
pub open spec fn token_hash(token: Seq<char>) -> Option<Seq<u8>> {
    match base64_bytes(token) {
        Some(bytes) => Some(sha512_of(bytes)),
        None => None,
    }
}

impl Session {
    pub closed spec fn spec_session_base(&self) -> Seq<char> {
        self.session_base@
    }

    /// Wraps the sixteen bytes of a session for the client. The token leads
    /// back to the hash of those bytes.
    pub fn new(token: [u8; 16]) -> (session: Session)
        ensures
            session.spec_session_base() == base64_of(token@),
            token_hash(session.spec_session_base()) == Some(sha512_of(token@)),
    {
        Session { session_base: base64_encode(token.as_slice()) }
    }

    /// The token as text.
    pub fn session_base(&self) -> (token: &String)
        ensures
            token@ == self.spec_session_base(),
    {
        &self.session_base
    }
}

/// A row of the session table.
#[derive(Debug)]
pub struct SessionRow {
    pub session_hash: Vec<u8>,
    pub user_id: i32,
    pub expiration: Timestamp,
}

/// Computes the hash by which the session of a presented token is looked up.
pub fn session_hash(token: &str) -> (hash: Option<Vec<u8>>)
    ensures
        match hash {
            Some(h) => token_hash(token@) == Some(h@),
            None => token_hash(token@) is None,
        },
{
    match base64_decode(token) {
        Ok(bytes) => Some(sha512(bytes.as_slice())),
        Err(_) => None,
    }
}

/// Issues a session for a user from sixteen fresh bytes: the row that the
/// store keeps, which expires one hour after `now`, and the token for the
/// client. Hashing the decoded token gives the hash in the row.
pub fn issue_session(session_id: [u8; 16], user_id: i32, now: Timestamp) -> (issued: (
    SessionRow,
    Session,
))
    requires
        now.secs + SESSION_SECONDS <= i64::MAX,
    ensures
        issued.0.session_hash@ == sha512_of(session_id@),
        issued.0.user_id == user_id,
        issued.0.expiration == (Timestamp {
            secs: (now.secs + SESSION_SECONDS) as i64,
            nanos: now.nanos,
        }),
        issued.1.spec_session_base() == base64_of(session_id@),
        token_hash(issued.1.spec_session_base()) == Some(issued.0.session_hash@),
{
    let row = SessionRow {
        session_hash: sha512(session_id.as_slice()),
        user_id,
        expiration: Timestamp { secs: now.secs + SESSION_SECONDS, nanos: now.nanos },
    };
    (row, Session::new(session_id))
}

/// Issues a session for a user from sixteen random bytes. There is none
/// only where a lifetime of one hour from `now` leaves the range of
/// instants.
pub fn open_session(user_id: i32, now: Timestamp) -> (issued: Option<(SessionRow, Session)>)
    ensures
        issued is Some <==> now.secs + SESSION_SECONDS <= i64::MAX,
        match issued {
            Some((row, session)) => {
                &&& row.user_id == user_id
                &&& row.expiration == (Timestamp {
                    secs: (now.secs + SESSION_SECONDS) as i64,
                    nanos: now.nanos,
                })
                &&& token_hash(session.spec_session_base()) == Some(row.session_hash@)
            },
            None => true,
        },
{
    if now.secs > i64::MAX - SESSION_SECONDS {
        None
    } else {
        Some(issue_session(random_session_id(), user_id, now))
    }
}

/// What the store knows about a presented token: the row of its session, if
/// there is one; whether the user of that session is an administrator; and,
/// where the request names a class, whether the user is enrolled in it, and
/// then whether as an instructor.
#[derive(Clone, Copy, Debug, PartialEq, Eq, Structural)]
pub struct SessionFacts {
    /// The expiration of the session, if the token has one.
    pub expiration: Option<Timestamp>,
    pub is_admin: bool,
    /// `Some(true)` for an instructor of the class, `Some(false)` for a
    /// student of it, `None` for a user who is not enrolled or a request
    /// that names no class.
    pub enrollment: Option<bool>,
}

impl SessionFacts {
    /// The session exists and expires after `now`.
    pub open spec fn valid(self, now: Timestamp) -> bool {
        self.expiration is Some && self.expiration->0.after(now)
    }

    /// The session is valid and its user is an administrator.
    pub open spec fn admin(self, now: Timestamp) -> bool {
        self.valid(now) && self.is_admin
    }

    /// The session is valid and its user is an instructor of the class.
    pub open spec fn instructor(self, now: Timestamp) -> bool {
        self.valid(now) && self.enrollment == Some(true)
    }

    /// The session is valid and its user is enrolled in the class, but not
    /// as an instructor.
    pub open spec fn student(self, now: Timestamp) -> bool {
        self.valid(now) && self.enrollment == Some(false)
    }
}

/// No user is both a student and an instructor of the class that a request
/// names, and every role rests on a valid session.
pub proof fn lemma_roles(facts: SessionFacts, now: Timestamp)
    ensures
        !(facts.student(now) && facts.instructor(now)),
        facts.admin(now) || facts.instructor(now) || facts.student(now) ==> facts.valid(now),
{
}

/// A session lasts one hour: issued at `now`, it is valid at `now` and at
/// every instant before one hour has passed, and at no instant from then on.
pub proof fn lemma_session_lasts_one_hour(
    now: Timestamp,
    at: Timestamp,
    is_admin: bool,
    enrollment: Option<bool>,
)
    requires
        now.secs + SESSION_SECONDS <= i64::MAX,
    ensures
        ({
            let expiration = Timestamp {
                secs: (now.secs + SESSION_SECONDS) as i64,
                nanos: now.nanos,
            };
            let facts = SessionFacts { expiration: Some(expiration), is_admin, enrollment };
            &&& facts.valid(now)
            &&& !facts.valid(expiration)
            &&& facts.valid(at) <==> !at.at_or_after(expiration)
        }),
{
}

/// A session that is valid at some instant was valid at every earlier one.
pub proof fn lemma_validity_ends_once(facts: SessionFacts, earlier: Timestamp, later: Timestamp)
    requires
        later.at_or_after(earlier),
        facts.valid(later),
    ensures
        facts.valid(earlier),
{
}

/// Whether the token has a session that has not expired.
pub fn session_exists_and_valid(facts: &SessionFacts, now: &Timestamp) -> (r: bool)
    ensures
        r == facts.valid(*now),
{
    match &facts.expiration {
        Some(expiration) => expiration.is_after(now),
        None => false,
    }
}

/// Whether the token belongs to a student of the class.
pub fn session_is_student(facts: &SessionFacts, now: &Timestamp) -> (r: bool)
    ensures
        r == facts.student(*now),
{
    session_exists_and_valid(facts, now) && match facts.enrollment {
        Some(is_instructor) => !is_instructor,
        None => false,
    }
}

/// Whether the token belongs to an instructor of the class.
pub fn session_is_instructor(facts: &SessionFacts, now: &Timestamp) -> (r: bool)
    ensures
        r == facts.instructor(*now),
{
    session_exists_and_valid(facts, now) && match facts.enrollment {
        Some(is_instructor) => is_instructor,
        None => false,
    }
}

/// Whether the token belongs to an administrator.
pub fn session_is_admin(facts: &SessionFacts, now: &Timestamp) -> (r: bool)
    ensures
        r == facts.admin(*now),
{
    session_exists_and_valid(facts, now) && facts.is_admin
}

} // verus!
