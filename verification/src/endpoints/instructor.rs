//! The endpoints of instructors: join codes, scores, downloads, and the
//! writing of assignments.

use crate::database::assignment::{
    add_assignment as plan_new_assignment, assignment_rows_of,
    update_assignment as plan_assignment_update, AssignmentError, AssignmentRows,
    AssignmentRowsView,
};
use crate::endpoints::{
    last_id, last_id_of, path_id, path_id_of, reply, reply_of, write_reply, Reply, OK_JSON,
};
use crate::model::request::ClientRequest;
use crate::random::random_bytes;
use crate::text::opt_text;
use vstd::prelude::*;

verus! {

/// The number of characters of a join code.
pub const JOIN_CODE_LENGTH: usize = 6;

/// The upper-case hexadecimal digit of a value below sixteen.
pub open spec fn hex_digit(value: int) -> char {
    if value == 0 {
        '0'
    } else if value == 1 {
        '1'
    } else if value == 2 {
        '2'
    } else if value == 3 {
        '3'
    } else if value == 4 {
        '4'
    } else if value == 5 {
        '5'
    } else if value == 6 {
        '6'
    } else if value == 7 {
        '7'
    } else if value == 8 {
        '8'
    } else if value == 9 {
        '9'
    } else if value == 10 {
        'A'
    } else if value == 11 {
        'B'
    } else if value == 12 {
        'C'
    } else if value == 13 {
        'D'
    } else if value == 14 {
        'E'
    } else {
        'F'
    }
}

/// The join code that a run of random bytes gives: for each byte the
/// hexadecimal digit of its remainder by sixteen.
pub open spec fn join_code_of(bytes: Seq<u8>) -> Seq<char> {
    Seq::new(bytes.len(), |i: int| hex_digit(bytes[i] as int % 16))
}

fn hex_text(value: u8) -> (text: &'static str)
    requires
        value < 16,
    ensures
        text@ == seq![hex_digit(value as int)],
{
    proof {
        reveal_strlit("0");
        reveal_strlit("1");
        reveal_strlit("2");
        reveal_strlit("3");
        reveal_strlit("4");
        reveal_strlit("5");
        reveal_strlit("6");
        reveal_strlit("7");
        reveal_strlit("8");
        reveal_strlit("9");
        reveal_strlit("A");
        reveal_strlit("B");
        reveal_strlit("C");
        reveal_strlit("D");
        reveal_strlit("E");
        reveal_strlit("F");
    }
    let text = if value == 0 {
        "0"
    } else if value == 1 {
        "1"
    } else if value == 2 {
        "2"
    } else if value == 3 {
        "3"
    } else if value == 4 {
        "4"
    } else if value == 5 {
        "5"
    } else if value == 6 {
        "6"
    } else if value == 7 {
        "7"
    } else if value == 8 {
        "8"
    } else if value == 9 {
        "9"
    } else if value == 10 {
        "A"
    } else if value == 11 {
        "B"
    } else if value == 12 {
        "C"
    } else if value == 13 {
        "D"
    } else if value == 14 {
        "E"
    } else {
        "F"
    };
    assert(text@ =~= seq![hex_digit(value as int)]);
    text
}

/// Writes random bytes as a join code.
pub fn join_code(bytes: &[u8]) -> (code: String)
    ensures
        code@ == join_code_of(bytes@),
{
    let mut code = String::new();
    let mut i: usize = 0;
    while i < bytes.len()
        invariant
            i <= bytes.len(),
            code@ =~= join_code_of(bytes@).take(i as int),
        decreases bytes.len() - i,
    {
        code.append(hex_text(bytes[i] % 16));
        i = i + 1;
    }
    assert(join_code_of(bytes@).take(i as int) =~= join_code_of(bytes@));
    code
}

/// A fresh join code: six upper-case hexadecimal digits, drawn at random.
pub fn generate_join_code() -> (code: String)
    ensures
        code@.len() == JOIN_CODE_LENGTH,
        exists|bytes: Seq<u8>| bytes.len() == JOIN_CODE_LENGTH && code@ == join_code_of(bytes),
{
    let bytes = random_bytes(JOIN_CODE_LENGTH);
    join_code(bytes.as_slice())
}

/// The reply that carries a join code.
pub open spec fn join_code_body(code: Seq<char>) -> Seq<char> {
    "{ \"join_code\": \""@ + code + "\" }"@
}

/// The body of the reply that carries a join code.
pub fn join_code_reply(code: &str) -> (r: Reply)
    ensures
        r.status == 200,
        r.body@ == join_code_body(code@),
{
    let body = "{ \"join_code\": \"".to_owned().concat(code).concat("\" }");
    Reply { status: 200, body }
}

/// The reply to a request that appoints an instructor.
pub fn add_instructor(added: bool) -> (r: Reply)
    ensures
        r@ == if added {
            reply_of(200, OK_JSON)
        } else {
            reply_of(500, "Internal Error.")
        },
{
    write_reply(added)
}

/// The reply to a request that enrols a student.
pub fn add_student(added: bool) -> (r: Reply)
    ensures
        r@ == if added {
            reply_of(200, OK_JSON)
        } else {
            reply_of(500, "Internal Error.")
        },
{
    write_reply(added)
}

/// Whose submissions a download asks for: the assignment in the second and
/// the user name in the third of exactly three path segments. Any other
/// path is a bad request.
pub fn download_submission(path_params: &Vec<String>) -> (r: Result<(i32, String), Reply>)
    ensures
        match r {
            Ok((assignment_id, username)) => path_params.len() == 3 && path_id_of(
                path_params@,
                1,
            ) == Some(assignment_id) && username == path_params[2],
            Err(refusal) => (path_params.len() != 3 || path_id_of(path_params@, 1) is None)
                && refusal@ == reply_of(400, "Bad Request."),
        },
{
    if path_params.len() != 3 {
        return Err(reply(400, "Bad Request."));
    }
    match path_id(path_params, 1) {
        Some(assignment_id) => Ok((assignment_id, path_params[2].clone())),
        None => Err(reply(400, "Bad Request.")),
    }
}

/// The assignment whose scores a request asks for: the second of exactly
/// two path segments. Any other path is a bad request.
pub fn retrieve_scores(path_params: &Vec<String>) -> (r: Result<i32, Reply>)
    ensures
        match r {
            Ok(assignment_id) => last_id_of(path_params@, 2) == Some(assignment_id),
            Err(refusal) => last_id_of(path_params@, 2) is None && refusal@ == reply_of(
                400,
                "Bad Request.",
            ),
        },
{
    match last_id(path_params, 2) {
        Some(assignment_id) => Ok(assignment_id),
        None => Err(reply(400, "Bad Request.")),
    }
}

/// The assignment in the second path segment, whatever follows it.
pub open spec fn second_id_of(path_params: Seq<String>) -> Option<i32> {
    path_id_of(path_params, 1)
}

/// The assignment whose full description a request asks for: the second
/// path segment. A path without one is a bad request.
pub fn retrieve_full_assignment_info(path_params: &Vec<String>) -> (r: Result<i32, Reply>)
    ensures
        match r {
            Ok(assignment_id) => second_id_of(path_params@) == Some(assignment_id),
            Err(refusal) => second_id_of(path_params@) is None && refusal@ == reply_of(
                400,
                "Invalid URL parameters.",
            ),
        },
{
    match path_id(path_params, 1) {
        Some(assignment_id) => Ok(assignment_id),
        None => Err(reply(400, "Invalid URL parameters.")),
    }
}

/// Why an assignment is not written.
#[derive(Debug)]
pub enum WriteRefusal {
    /// The path lacks what names the class or the assignment.
    BadPath,
    /// The request lacks the name, the deadline or the tasks.
    MissingFields,
    /// The assignment cannot be stored as described.
    Unstorable(AssignmentError),
}

impl WriteRefusal {
    /// The reply that goes with the refusal: a bad request where the
    /// request is malformed, an internal error where storing fails.
    pub fn reply(&self) -> (r: Reply)
        ensures
            r@ == match self {
                WriteRefusal::BadPath => reply_of(400, "Bad Request."),
                WriteRefusal::MissingFields => reply_of(
                    400,
                    "Missing required fields assignment_name or deadline.",
                ),
                WriteRefusal::Unstorable(_) => reply_of(500, "Internal Error."),
            },
    {
        match self {
            WriteRefusal::BadPath => reply(400, "Bad Request."),
            WriteRefusal::MissingFields => reply(
                400,
                "Missing required fields assignment_name or deadline.",
            ),
            WriteRefusal::Unstorable(_) => reply(500, "Internal Error."),
        }
    }
}

/// What writing the assignment of a request stores, with either kind of
/// strictness about material.
pub open spec fn written(client_req: ClientRequest, strict: bool) -> Result<
    AssignmentRowsView,
    WriteRefusal,
> {
    match (client_req.assignment_name, client_req.deadline, client_req.tasks) {
        (Some(name), Some(deadline), Some(tasks)) => match assignment_rows_of(
            name@,
            opt_text(client_req.assignment_description),
            deadline@,
            tasks@,
            strict,
        ) {
            Ok(rows) => Ok(rows),
            Err(e) => Err(WriteRefusal::Unstorable(e)),
        },
        _ => Err(WriteRefusal::MissingFields),
    }
}

/// What a request to add an assignment stores, and for which class: the
/// class is the first path segment; name, deadline and tasks are required.
pub fn add_assignment(path_params: &Vec<String>, client_req: &ClientRequest) -> (r: Result<
    (String, AssignmentRows),
    WriteRefusal,
>)
    ensures
        match r {
            Ok((class_number, rows)) => path_params.len() > 0 && class_number == path_params[0]
                && written(*client_req, false) == Ok::<_, WriteRefusal>(rows@),
            Err(refusal) => if path_params.len() == 0 {
                refusal == WriteRefusal::BadPath
            } else {
                written(*client_req, false) == Err::<
                    AssignmentRowsView,
                    _,
                >(refusal)
            },
        },
{
    if path_params.len() == 0 {
        return Err(WriteRefusal::BadPath);
    }
    match (&client_req.assignment_name, &client_req.deadline, &client_req.tasks) {
        (Some(name), Some(deadline), Some(tasks)) => {
            match plan_new_assignment(
                name.clone(),
                client_req.assignment_description.clone(),
                deadline.as_str(),
                tasks,
            ) {
                Ok(rows) => Ok((path_params[0].clone(), rows)),
                Err(e) => Err(WriteRefusal::Unstorable(e)),
            }
        },
        _ => Err(WriteRefusal::MissingFields),
    }
}

/// What a request to replace an assignment stores, and for which
/// assignment: the assignment is the second path segment; name, deadline
/// and tasks are required.
pub fn update_assignment(path_params: &Vec<String>, client_req: &ClientRequest) -> (r: Result<
    (i32, AssignmentRows),
    WriteRefusal,
>)
    ensures
        match r {
            Ok((assignment_id, rows)) => second_id_of(path_params@) == Some(assignment_id)
                && written(*client_req, true) == Ok::<_, WriteRefusal>(rows@),
            Err(refusal) => if second_id_of(path_params@) is None {
                refusal == WriteRefusal::BadPath
            } else {
                written(*client_req, true) == Err::<
                    AssignmentRowsView,
                    _,
                >(refusal)
            },
        },
{
    let assignment_id = match path_id(path_params, 1) {
        Some(id) => id,
        None => {
            return Err(WriteRefusal::BadPath);
        },
    };
    match (&client_req.assignment_name, &client_req.deadline, &client_req.tasks) {
        (Some(name), Some(deadline), Some(tasks)) => {
            match plan_assignment_update(
                name.clone(),
                client_req.assignment_description.clone(),
                deadline.as_str(),
                tasks,
            ) {
                Ok(rows) => Ok((assignment_id, rows)),
                Err(e) => Err(WriteRefusal::Unstorable(e)),
            }
        },
        _ => Err(WriteRefusal::MissingFields),
    }
}

} // verus!
