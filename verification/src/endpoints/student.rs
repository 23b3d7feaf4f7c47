//! The endpoints of students: submitting, polling for a score, and reading
//! an assignment.

use crate::endpoints::{
    found_reply, last_id, last_id_of, path_id, path_id_of, reply, reply_of, Reply, ReplyView,
    OK_JSON,
};
use crate::database::assignment::operations::{
    get_task_score, in_progress, row_for, submission_in_progress, GradeTable, TaskGradeView,
};
use crate::text::string_from_utf8;
use vstd::prelude::*;
use vstd::utf8::{decode_utf8, valid_utf8};

verus! {

/// How the handling of a submission ends for the client.
#[derive(Clone, Copy, Debug, PartialEq, Eq, Structural)]
pub enum SubmissionReply {
    /// The submission was stored and queued.
    Accepted,
    /// The path does not name an assignment and a task.
    BadRequest,
    /// The request has no `Language` header.
    LanguageMissing,
    /// The request has no token, or the token has no session.
    NotAuthorized,
    /// An earlier submission for the task is still being graded.
    TooEarly,
    /// The store failed.
    StoreFailed,
    /// The queue did not take the job.
    QueueFull,
    /// An event arrived that the stage does not wait for.
    OutOfTurn,
}

impl SubmissionReply {
    /// The HTTP status of the reply.
    pub open spec fn spec_status(self) -> u16 {
        match self {
            SubmissionReply::Accepted => 200,
            SubmissionReply::BadRequest => 400,
            SubmissionReply::LanguageMissing => 400,
            SubmissionReply::NotAuthorized => 401,
            SubmissionReply::TooEarly => 425,
            SubmissionReply::StoreFailed => 500,
            SubmissionReply::QueueFull => 500,
            SubmissionReply::OutOfTurn => 500,
        }
    }

    #[verifier::when_used_as_spec(spec_status)]
    pub fn status(self) -> (code: u16)
        ensures
            code == self.spec_status(),
    {
        match self {
            SubmissionReply::Accepted => 200,
            SubmissionReply::BadRequest => 400,
            SubmissionReply::LanguageMissing => 400,
            SubmissionReply::NotAuthorized => 401,
            SubmissionReply::TooEarly => 425,
            SubmissionReply::StoreFailed => 500,
            SubmissionReply::QueueFull => 500,
            SubmissionReply::OutOfTurn => 500,
        }
    }

    /// The body of the reply.
    pub fn body(self) -> (text: &'static str)
        ensures
            text@ == match self {
                SubmissionReply::Accepted => OK_JSON@,
                SubmissionReply::BadRequest => "Bad Request"@,
                SubmissionReply::LanguageMissing => "Language Header Missing"@,
                SubmissionReply::NotAuthorized => "Not Authorized"@,
                SubmissionReply::TooEarly =>
                    "Previous submission still in queue. Check for results later."@,
                SubmissionReply::StoreFailed => "Internal Error"@,
                SubmissionReply::QueueFull => "Could not add submission to queue"@,
                SubmissionReply::OutOfTurn => "Internal Error"@,
            },
    {
        match self {
            SubmissionReply::Accepted => OK_JSON,
            SubmissionReply::BadRequest => "Bad Request",
            SubmissionReply::LanguageMissing => "Language Header Missing",
            SubmissionReply::NotAuthorized => "Not Authorized",
            SubmissionReply::TooEarly =>
                "Previous submission still in queue. Check for results later.",
            SubmissionReply::StoreFailed => "Internal Error",
            SubmissionReply::QueueFull => "Could not add submission to queue",
            SubmissionReply::OutOfTurn => "Internal Error",
        }
    }
}

/// Where the handling of a submission stands.
#[derive(Debug)]
pub enum Stage {
    /// The request has not been looked at.
    Received,
    /// The session store is asked for the user of the token.
    Identifying { assignment_id: i32, task_id: i32, lang: String },
    /// The grade table is asked to take the submission.
    Storing { user_id: i32, task_id: i32, lang: String },
    /// The scheduler is asked to take the job.
    Queueing,
    /// The client has its reply.
    Done,
}

/// What the grade table said of a submission.
#[derive(Clone, Copy, Debug, PartialEq, Eq, Structural)]
pub enum Stored {
    /// The submission was recorded; the flag says whether it was late.
    Recorded(bool),
    /// An earlier submission for the task is still being graded.
    InProgress,
    /// The store failed.
    Failed,
}

/// What happened since the last step.
#[derive(Debug)]
pub enum Event {
    /// The request arrived, with its path parameters and its two headers.
    Arrived { path_params: Vec<String>, token: Option<String>, language: Option<String> },
    /// The session store answered with the user of the token, if it has one.
    User(Option<i32>),
    /// The grade table answered.
    Table(Stored),
    /// The scheduler answered: whether it took the job.
    Queued(bool),
}

/// What has to be done next.
#[derive(Debug)]
pub enum Action {
    /// Ask the session store for the user of the token.
    LookUpUser { token: String },
    /// In one transaction: turn the submission away if an earlier one for
    /// the task is still being graded, else clear the old row and record the
    /// submission with the time at which the request arrived.
    Store { user_id: i32, assignment_id: i32, task_id: i32 },
    /// Reserve a place in the queue and send the job.
    Enqueue { user_id: i32, task_id: i32, was_late: bool, lang: String },
    /// Answer the client.
    Answer(SubmissionReply),
}

/// What a request asks for, if it is well formed: the path names a class, an
/// assignment and a task, and both headers are present. The path is looked
/// at first, then the token, then the language.
pub open spec fn first_action(
    path_params: Seq<String>,
    token: Option<String>,
    language: Option<String>,
) -> (Stage, Action) {
    if path_params.len() != 3 || path_id_of(path_params, 1) is None || path_id_of(path_params, 2)
        is None {
        (Stage::Done, Action::Answer(SubmissionReply::BadRequest))
    } else {
        match token {
            None => (Stage::Done, Action::Answer(SubmissionReply::NotAuthorized)),
            Some(token) => match language {
                None => (Stage::Done, Action::Answer(SubmissionReply::LanguageMissing)),
                Some(lang) => (
                    Stage::Identifying {
                        assignment_id: path_id_of(path_params, 1)->0,
                        task_id: path_id_of(path_params, 2)->0,
                        lang,
                    },
                    Action::LookUpUser { token },
                ),
            },
        }
    }
}

/// The next stage and the next action, from the stage and what happened.
pub open spec fn step(stage: Stage, event: Event) -> (Stage, Action) {
    match (stage, event) {
        (Stage::Received, Event::Arrived { path_params, token, language }) => first_action(
            path_params@,
            token,
            language,
        ),
        (Stage::Identifying { assignment_id, task_id, lang }, Event::User(Some(user_id))) => (
            Stage::Storing { user_id, task_id, lang },
            Action::Store { user_id, assignment_id, task_id },
        ),
        (Stage::Identifying { .. }, Event::User(None)) => (
            Stage::Done,
            Action::Answer(SubmissionReply::NotAuthorized),
        ),
        (Stage::Storing { user_id, task_id, lang }, Event::Table(Stored::Recorded(was_late))) => (
            Stage::Queueing,
            Action::Enqueue { user_id, task_id, was_late, lang },
        ),
        (Stage::Storing { .. }, Event::Table(Stored::InProgress)) => (
            Stage::Done,
            Action::Answer(SubmissionReply::TooEarly),
        ),
        (Stage::Storing { .. }, Event::Table(Stored::Failed)) => (
            Stage::Done,
            Action::Answer(SubmissionReply::StoreFailed),
        ),
        (Stage::Queueing, Event::Queued(true)) => (
            Stage::Done,
            Action::Answer(SubmissionReply::Accepted),
        ),
        (Stage::Queueing, Event::Queued(false)) => (
            Stage::Done,
            Action::Answer(SubmissionReply::QueueFull),
        ),
        _ => (Stage::Done, Action::Answer(SubmissionReply::OutOfTurn)),
    }
}

/// The order of the steps cannot be skipped: a submission is accepted only
/// once the scheduler took the job, a job is sent only once the grade table
/// recorded the submission, the table is asked only once the user is known,
/// and every answer ends the handling.
pub proof fn lemma_steps_in_order(stage: Stage, event: Event)
    ensures
        step(stage, event).1 == Action::Answer(SubmissionReply::Accepted) ==> stage is Queueing
            && event == Event::Queued(true),
        step(stage, event).1 is Enqueue ==> stage is Storing && event is Table
            && event->Table_0 is Recorded,
        step(stage, event).1 is Store ==> stage is Identifying && event is User
            && event->User_0 is Some,
        step(stage, event).1 is LookUpUser ==> stage is Received && event is Arrived,
        step(stage, event).1 is Answer <==> step(stage, event).0 is Done,
        step(stage, event).1 == Action::Answer(SubmissionReply::TooEarly) ==> event
            == Event::Table(Stored::InProgress),
{
}

/// Takes one step in the handling of a submission.
pub fn handle_submission(stage: Stage, event: Event) -> (next: (Stage, Action))
    ensures
        next == step(stage, event),
{
    match (stage, event) {
        (Stage::Received, Event::Arrived { path_params, token, language }) => {
            if path_params.len() != 3 {
                return (Stage::Done, Action::Answer(SubmissionReply::BadRequest));
            }
            let assignment_id = match path_id(&path_params, 1) {
                Some(id) => id,
                None => {
                    return (Stage::Done, Action::Answer(SubmissionReply::BadRequest));
                },
            };
            let task_id = match path_id(&path_params, 2) {
                Some(id) => id,
                None => {
                    return (Stage::Done, Action::Answer(SubmissionReply::BadRequest));
                },
            };
            match token {
                None => (Stage::Done, Action::Answer(SubmissionReply::NotAuthorized)),
                Some(token) => match language {
                    None => (Stage::Done, Action::Answer(SubmissionReply::LanguageMissing)),
                    Some(lang) => (
                        Stage::Identifying { assignment_id, task_id, lang },
                        Action::LookUpUser { token },
                    ),
                },
            }
        },
        (Stage::Identifying { assignment_id, task_id, lang }, Event::User(Some(user_id))) => (
            Stage::Storing { user_id, task_id, lang },
            Action::Store { user_id, assignment_id, task_id },
        ),
        (Stage::Identifying { .. }, Event::User(None)) => (
            Stage::Done,
            Action::Answer(SubmissionReply::NotAuthorized),
        ),
        (Stage::Storing { user_id, task_id, lang }, Event::Table(Stored::Recorded(was_late))) => (
            Stage::Queueing,
            Action::Enqueue { user_id, task_id, was_late, lang },
        ),
        (Stage::Storing { .. }, Event::Table(Stored::InProgress)) => (
            Stage::Done,
            Action::Answer(SubmissionReply::TooEarly),
        ),
        (Stage::Storing { .. }, Event::Table(Stored::Failed)) => (
            Stage::Done,
            Action::Answer(SubmissionReply::StoreFailed),
        ),
        (Stage::Queueing, Event::Queued(true)) => (
            Stage::Done,
            Action::Answer(SubmissionReply::Accepted),
        ),
        (Stage::Queueing, Event::Queued(false)) => (
            Stage::Done,
            Action::Answer(SubmissionReply::QueueFull),
        ),
        _ => (Stage::Done, Action::Answer(SubmissionReply::OutOfTurn)),
    }
}

/// The task whose material a request asks for: the third of exactly three
/// path segments. Any other path is a bad request.
pub fn download_material(path_params: &Vec<String>) -> (r: Result<i32, Reply>)
    ensures
        match r {
            Ok(task_id) => last_id_of(path_params@, 3) == Some(task_id),
            Err(refusal) => last_id_of(path_params@, 3) is None && refusal@ == reply_of(
                400,
                "Bad Request.",
            ),
        },
{
    match last_id(path_params, 3) {
        Some(task_id) => Ok(task_id),
        None => Err(reply(400, "Bad Request.")),
    }
}

/// The reply to a request for material: the material, or a 404 where the
/// task has none.
pub fn material_reply(material_json: Option<String>) -> (r: Reply)
    ensures
        r@ == match material_json {
            Some(b) => ReplyView { status: 200, body: b@ },
            None => reply_of(404, "No material found."),
        },
{
    found_reply(material_json, "No material found.")
}

/// What a poll for a score asks for, if it is well formed: the token and the
/// task in the third of exactly three path segments. A request without a
/// token is unauthorized; any other path is a bad request.
pub fn retrieve_task_score(path_params: &Vec<String>, token: Option<String>) -> (r: Result<
    (String, i32),
    Reply,
>)
    ensures
        match r {
            Ok((t, task_id)) => token == Some(t) && last_id_of(path_params@, 3) == Some(task_id),
            Err(refusal) => if token is None {
                refusal@ == reply_of(401, "Access Denied.")
            } else {
                last_id_of(path_params@, 3) is None && refusal@ == reply_of(400, "Invalid URL")
            },
        },
{
    let token = match token {
        Some(t) => t,
        None => {
            return Err(reply(401, "Access Denied."));
        },
    };
    match last_id(path_params, 3) {
        Some(task_id) => Ok((token, task_id)),
        None => Err(reply(400, "Invalid URL")),
    }
}

/// What the store said of a poll for a score.
#[derive(Debug)]
pub enum Polled {
    /// The token has no session.
    UnknownUser,
    /// The submission is still being graded.
    InProgress,
    /// The store failed.
    Failed,
    /// The stored results, if there are any.
    Results(Option<String>),
}

/// What the table holds for a poll, by the text of the results.
pub open spec fn polled_of(rows: Seq<TaskGradeView>, user_id: i32, task_id: i32) -> Option<
    Option<Seq<char>>,
> {
    if in_progress(rows, user_id, task_id) {
        None
    } else {
        match row_for(rows, user_id, task_id) {
            Some(row) => match row.json_results {
                Some(json) => if valid_utf8(json) {
                    Some(Some(decode_utf8(json)))
                } else {
                    None
                },
                None => Some(None),
            },
            None => Some(None),
        }
    }
}

/// Looks up what a poll of a user for a task is answered with: too early
/// while the submission is being graded, else the stored results as text,
/// if there are any. Results that are not text are a failure of the store.
pub fn poll(table: &GradeTable, user_id: i32, task_id: i32) -> (polled: Polled)
    ensures
        match polled {
            Polled::InProgress => in_progress(table@, user_id, task_id),
            Polled::Results(Some(json)) => polled_of(table@, user_id, task_id) == Some(
                Some(json@),
            ),
            Polled::Results(None) => polled_of(table@, user_id, task_id) == Some(
                None::<Seq<char>>,
            ),
            Polled::Failed => !in_progress(table@, user_id, task_id) && polled_of(
                table@,
                user_id,
                task_id,
            ) is None,
            Polled::UnknownUser => false,
        },
{
    if submission_in_progress(table, user_id, task_id) {
        return Polled::InProgress;
    }
    match get_task_score(table, user_id, task_id) {
        Some(json) => match string_from_utf8(json) {
            Some(text) => Polled::Results(Some(text)),
            None => Polled::Failed,
        },
        None => Polled::Results(None),
    }
}

/// The reply to a poll for a score: the results once there are some; too
/// early while the submission is being graded; not found where nothing was
/// submitted.
pub fn score_reply(polled: Polled) -> (r: Reply)
    ensures
        r@ == match polled {
            Polled::UnknownUser => reply_of(401, "Access Denied."),
            Polled::InProgress => reply_of(425, "Submission in progress"),
            Polled::Failed => reply_of(500, "Internal Error."),
            Polled::Results(Some(json)) => ReplyView { status: 200, body: json@ },
            Polled::Results(None) => reply_of(404, "Not Found."),
        },
{
    match polled {
        Polled::UnknownUser => reply(401, "Access Denied."),
        Polled::InProgress => reply(425, "Submission in progress"),
        Polled::Failed => reply(500, "Internal Error."),
        Polled::Results(json) => found_reply(json, "Not Found."),
    }
}

/// The assignment that a request asks for: the second of exactly two path
/// segments. Any other path is a bad request.
pub fn get_assignment(path_params: &Vec<String>) -> (r: Result<i32, Reply>)
    ensures
        match r {
            Ok(assignment_id) => last_id_of(path_params@, 2) == Some(assignment_id),
            Err(refusal) => last_id_of(path_params@, 2) is None && refusal@ == reply_of(
                400,
                "Bad Request",
            ),
        },
{
    match last_id(path_params, 2) {
        Some(assignment_id) => Ok(assignment_id),
        None => Err(reply(400, "Bad Request")),
    }
}

/// The class that a request asks about: the first path segment. A path
/// without segments is a bad request.
pub fn get_class_info(path_params: &Vec<String>) -> (r: Result<String, Reply>)
    ensures
        match r {
            Ok(class_number) => path_params.len() > 0 && class_number == path_params[0],
            Err(refusal) => path_params.len() == 0 && refusal@ == reply_of(400, "Bad Request."),
        },
{
    if path_params.len() > 0 {
        Ok(path_params[0].clone())
    } else {
        Err(reply(400, "Bad Request."))
    }
}

} // verus!
