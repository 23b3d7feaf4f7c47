//! What each endpoint decides before and after it touches the store: which
//! requests are well formed, and which reply each outcome gets.

use crate::database::auth::Session;
use crate::text::{decimal_i32, parse_i32, to_uppercase, uppercase_of};
use vstd::prelude::*;

pub mod admin;
pub mod instructor;
pub mod student;

verus! {

/// The body of a reply that has nothing else to say.
pub const OK_JSON: &'static str = "{ \"message\": \"OK\" }";

/// The status and the short public message of a reply.
#[derive(Debug)]
pub struct Reply {
    pub status: u16,
    pub body: String,
}

pub struct ReplyView {
    pub status: u16,
    pub body: Seq<char>,
}

impl View for Reply {
    type V = ReplyView;

    open spec fn view(&self) -> ReplyView {
        ReplyView { status: self.status, body: self.body@ }
    }
}

/// The reply with a status and a message.
pub open spec fn reply_of(status: u16, body: &str) -> ReplyView {
    ReplyView { status, body: body@ }
}

pub fn reply(status: u16, body: &str) -> (r: Reply)
    ensures
        r@ == reply_of(status, body),
{
    Reply { status, body: body.to_owned() }
}

/// The success reply: status 200 and the generic body.
pub fn ok_reply() -> (r: Reply)
    ensures
        r@ == reply_of(200, OK_JSON),
{
    reply(200, OK_JSON)
}

/// The identifier in a path segment, if the path has the segment and it is a
/// decimal 32-bit integer.
pub open spec fn path_id_of(path_params: Seq<String>, at: int) -> Option<i32> {
    if 0 <= at < path_params.len() {
        decimal_i32(path_params[at]@)
    } else {
        None
    }
}

/// Reads the identifier in a path segment.
pub fn path_id(path_params: &Vec<String>, at: usize) -> (id: Option<i32>)
    ensures
        id == path_id_of(path_params@, at as int),
{
    if at < path_params.len() {
        parse_i32(path_params[at].as_str())
    } else {
        None
    }
}

/// The join code of a request to join a class, in upper case, as codes are
/// stored.
///
/// A request without a join code is a bad request.
pub fn join_class(join_code: &Option<String>) -> (r: Result<String, Reply>)
    ensures
        match r {
            Ok(code) => join_code is Some && code@ == uppercase_of(join_code->0@),
            Err(refusal) => join_code is None && refusal@ == reply_of(400, "Bad Request."),
        },
{
    match join_code {
        Some(code) => Ok(to_uppercase(code.as_str())),
        None => Err(reply(400, "Bad Request.")),
    }
}

/// What the store said of a join code.
#[derive(Clone, Copy, Debug, PartialEq, Eq, Structural)]
pub enum Joined {
    /// The code was valid and the user is enrolled.
    Enrolled,
    /// No class has the code, or the code has expired.
    NoSuchCode,
    /// The store failed.
    Failed,
}

/// The reply to a request to join a class.
pub fn join_class_reply(outcome: Joined) -> (r: Reply)
    ensures
        r@ == match outcome {
            Joined::Enrolled => reply_of(200, OK_JSON),
            Joined::NoSuchCode => reply_of(404, "Invalid Join Code."),
            Joined::Failed => reply_of(500, "Internal Server Error."),
        },
{
    match outcome {
        Joined::Enrolled => ok_reply(),
        Joined::NoSuchCode => reply(404, "Invalid Join Code."),
        Joined::Failed => reply(500, "Internal Server Error."),
    }
}

/// The reply of an endpoint that only writes: success, or an internal error
/// whatever the cause.
pub fn write_reply(succeeded: bool) -> (r: Reply)
    ensures
        r@ == if succeeded {
            reply_of(200, OK_JSON)
        } else {
            reply_of(500, "Internal Error.")
        },
{
    if succeeded {
        ok_reply()
    } else {
        reply(500, "Internal Error.")
    }
}

/// The reply of an endpoint that reads: the body that was found, or a
/// 404 with a message where nothing was found.
pub fn found_reply(body: Option<String>, missing: &str) -> (r: Reply)
    ensures
        r@ == match body {
            Some(b) => ReplyView { status: 200, body: b@ },
            None => reply_of(404, missing),
        },
{
    match body {
        Some(b) => Reply { status: 200, body: b },
        None => reply(404, missing),
    }
}

/// The identifier in the last of exactly `count` path segments.
pub open spec fn last_id_of(path_params: Seq<String>, count: int) -> Option<i32> {
    if path_params.len() == count {
        path_id_of(path_params, count - 1)
    } else {
        None
    }
}

/// Reads the identifier in the last segment of a path that must have
/// exactly `count` segments.
pub fn last_id(path_params: &Vec<String>, count: usize) -> (id: Option<i32>)
    requires
        count > 0,
    ensures
        id == last_id_of(path_params@, count as int),
{
    if path_params.len() == count {
        path_id(path_params, count - 1)
    } else {
        None
    }
}

/// The body that carries the token of a session to the client.
pub open spec fn session_body(token: Seq<char>) -> Seq<char> {
    "{\"session_base\":\""@ + token + "\"}"@
}

/// The reply to a login or a sign-up: the token of the new session, or an
/// internal error where there is none.
pub fn session_reply(session: Option<&Session>) -> (r: Reply)
    ensures
        r@ == match session {
            Some(s) => ReplyView { status: 200, body: session_body(s.spec_session_base()) },
            None => reply_of(500, "Internal Error"),
        },
{
    match session {
        Some(s) => {
            let body = "{\"session_base\":\"".to_owned().concat(s.session_base().as_str()).concat(
                "\"}",
            );
            Reply { status: 200, body }
        },
        None => reply(500, "Internal Error"),
    }
}

/// The reply to a login.
pub fn login(session: Option<&Session>) -> (r: Reply)
    ensures
        r@ == match session {
            Some(s) => ReplyView { status: 200, body: session_body(s.spec_session_base()) },
            None => reply_of(500, "Internal Error"),
        },
{
    session_reply(session)
}

/// The reply to a sign-up.
pub fn signup(session: Option<&Session>) -> (r: Reply)
    ensures
        r@ == match session {
            Some(s) => ReplyView { status: 200, body: session_body(s.spec_session_base()) },
            None => reply_of(500, "Internal Error"),
        },
{
    session_reply(session)
}

/// The names among the entries of a directory, in the order of the entries.
/// An entry whose name is not text has none.
pub open spec fn names_of(entries: Seq<Option<String>>) -> Seq<String>
    decreases entries.len(),
{
    if entries.len() == 0 {
        Seq::empty()
    } else {
        match entries.last() {
            Some(name) => names_of(entries.drop_last()).push(name),
            None => names_of(entries.drop_last()),
        }
    }
}

/// Where every entry of the recipe directory has a name, the supported
/// languages are exactly the entries of the directory, in their order.
pub proof fn lemma_languages_are_the_entries(entries: Seq<Option<String>>)
    requires
        forall|i: int| 0 <= i < entries.len() ==> (#[trigger] entries[i]) is Some,
    ensures
        names_of(entries).len() == entries.len(),
        forall|i: int| 0 <= i < entries.len() ==> Some(#[trigger] names_of(entries)[i]) == entries[i],
    decreases entries.len(),
{
    if entries.len() > 0 {
        let front = entries.drop_last();
        assert forall|i: int| 0 <= i < front.len() implies (#[trigger] front[i]) is Some by {
            assert(front[i] == entries[i]);
        }
        lemma_languages_are_the_entries(front);
        assert forall|i: int| 0 <= i < entries.len() implies Some(#[trigger] names_of(entries)[i])
            == entries[i] by {
            if i < front.len() {
                assert(names_of(entries)[i] == names_of(front)[i]);
                assert(front[i] == entries[i]);
            }
        }
    }
}

/// The languages that the service supports: the names of the entries of the
/// recipe directory.
pub fn supported_languages(entries: Vec<Option<String>>) -> (languages: Vec<String>)
    ensures
        languages@ == names_of(entries@),
{
    let mut languages: Vec<String> = Vec::new();
    let mut i: usize = 0;
    assert(entries@.take(0) =~= Seq::<Option<String>>::empty());
    while i < entries.len()
        invariant
            i <= entries.len(),
            languages@ == names_of(entries@.take(i as int)),
        decreases entries.len() - i,
    {
        proof {
            assert(entries@.take(i + 1).drop_last() =~= entries@.take(i as int));
            assert(entries@.take(i + 1).last() == entries@[i as int]);
        }
        match &entries[i] {
            Some(name) => {
                languages.push(name.clone());
            },
            None => {},
        }
        i = i + 1;
    }
    assert(entries@.take(i as int) =~= entries@);
    languages
}

/// The reply of an endpoint that lists: the list as JSON, or an internal
/// error where there is none.
pub fn listing_reply(json: Option<String>) -> (r: Reply)
    ensures
        r@ == match json {
            Some(b) => ReplyView { status: 200, body: b@ },
            None => reply_of(500, "Internal Server Error."),
        },
{
    match json {
        Some(b) => Reply { status: 200, body: b },
        None => reply(500, "Internal Server Error."),
    }
}

/// The reply that lists the classes of a user.
pub fn get_classes(classes_json: Option<String>) -> (r: Reply)
    ensures
        r@ == match classes_json {
            Some(b) => ReplyView { status: 200, body: b@ },
            None => reply_of(500, "Internal Server Error."),
        },
{
    listing_reply(classes_json)
}

/// The reply that lists the students.
pub fn list_all_students(students_json: Option<String>) -> (r: Reply)
    ensures
        r@ == match students_json {
            Some(b) => ReplyView { status: 200, body: b@ },
            None => reply_of(500, "Internal Server Error."),
        },
{
    listing_reply(students_json)
}

} // verus!
