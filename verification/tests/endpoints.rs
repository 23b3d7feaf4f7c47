use securegrade::database::assignment::{AssignmentError, TextError};
use securegrade::database::auth::Session;
use securegrade::endpoints::admin::create_class;
use securegrade::endpoints::instructor::{
    add_assignment, add_instructor, add_student, download_submission, generate_join_code, join_code, join_code_reply,
    retrieve_full_assignment_info, retrieve_scores, update_assignment, WriteRefusal,
    JOIN_CODE_LENGTH,
};
use securegrade::database::assignment::operations::{
    container_add_task_error, container_add_task_grade, submit, GradeTable,
};
use securegrade::endpoints::student::{
    download_material, get_assignment, get_class_info, handle_submission, material_reply, poll,
    retrieve_task_score, score_reply, Action, Event, Polled, Stage, Stored, SubmissionReply,
};
use securegrade::score::Ratio;
use securegrade::endpoints::{
    found_reply, get_classes, join_class, join_class_reply, last_id, list_all_students,
    listing_reply, login, ok_reply, path_id, reply, session_reply, signup, supported_languages,
    write_reply, Joined, Reply, OK_JSON,
};
use securegrade::model::request::{ClientRequest, Task as ReqTask, Test as ReqTest};
use securegrade::time::Timestamp;

fn path(segments: &[&str]) -> Vec<String> {
    segments.iter().map(|s| s.to_string()).collect()
}

fn pair(r: &Reply) -> (u16, &str) {
    (r.status, r.body.as_str())
}

fn arrived(segments: &[&str], token: Option<&str>, language: Option<&str>) -> Event {
    Event::Arrived {
        path_params: path(segments),
        token: token.map(|t| t.to_string()),
        language: language.map(|l| l.to_string()),
    }
}

fn answer(next: (Stage, Action)) -> SubmissionReply {
    match next {
        (Stage::Done, Action::Answer(reply)) => reply,
        other => panic!("no answer: {:?}", other),
    }
}

fn writing_request() -> ClientRequest {
    let mut request = ClientRequest::default();
    request.assignment_name = Some("Homework".to_string());
    request.deadline = Some("2024-01-01T00:00:00Z".to_string());
    request.tasks = Some(vec![ReqTask {
        task_description: "t".to_string(),
        allow_editor: false,
        material_base64: Some("!".to_string()),
        material_filename: None,
        timeout: None,
        tests: vec![ReqTest {
            test_name: None,
            is_public: false,
            input: Some("1".to_string()),
            output: Some("2".to_string()),
            input_file_base64: None,
            output_file_base64: None,
        }],
    }]);
    request
}

#[test]
fn generic_success_body() {
    assert_eq!(OK_JSON, "{ \"message\": \"OK\" }");
    assert_eq!(pair(&ok_reply()), (200, "{ \"message\": \"OK\" }"));
    assert_eq!(pair(&reply(404, "gone")), (404, "gone"));
    assert_eq!(pair(&write_reply(true)), (200, OK_JSON));
    assert_eq!(pair(&write_reply(false)), (500, "Internal Error."));
    assert_eq!(pair(&create_class(true)), (200, OK_JSON));
    assert_eq!(pair(&create_class(false)), (500, "Internal Error."));
}

#[test]
fn found_or_not_found() {
    assert_eq!(pair(&found_reply(Some("[1]".to_string()), "none")), (200, "[1]"));
    assert_eq!(pair(&found_reply(None, "none")), (404, "none"));
}

#[test]
fn path_identifiers_are_decimal() {
    let p = path(&["CS101", "12", "-3", "x"]);
    assert_eq!(path_id(&p, 1), Some(12));
    assert_eq!(path_id(&p, 2), Some(-3));
    assert_eq!(path_id(&p, 0), None);
    assert_eq!(path_id(&p, 3), None);
    assert_eq!(path_id(&p, 4), None);
    assert_eq!(last_id(&path(&["c", "7"]), 2), Some(7));
    assert_eq!(last_id(&path(&["c", "7"]), 3), None);
    assert_eq!(last_id(&path(&["c", "7", "8"]), 2), None);
}

#[test]
fn well_formed_submission_is_looked_up_first() {
    let next = handle_submission(
        Stage::Received,
        arrived(&["CS101", "4", "9"], Some("dG9rZW4="), Some("rust")),
    );
    match next {
        (Stage::Identifying { assignment_id, task_id, lang }, Action::LookUpUser { token }) => {
            assert_eq!(assignment_id, 4);
            assert_eq!(task_id, 9);
            assert_eq!(lang, "rust");
            assert_eq!(token, "dG9rZW4=");
        }
        other => panic!("unexpected: {:?}", other),
    }
}

#[test]
fn submission_walks_through_its_stages() {
    let identifying = Stage::Identifying { assignment_id: 4, task_id: 9, lang: "c".to_string() };
    let (storing, action) = handle_submission(identifying, Event::User(Some(21)));
    match action {
        Action::Store { user_id, assignment_id, task_id } => {
            assert_eq!((user_id, assignment_id, task_id), (21, 4, 9));
        }
        other => panic!("unexpected: {:?}", other),
    }
    let (queueing, action) = handle_submission(storing, Event::Table(Stored::Recorded(true)));
    match action {
        Action::Enqueue { user_id, task_id, was_late, lang } => {
            assert_eq!((user_id, task_id, was_late), (21, 9, true));
            assert_eq!(lang, "c");
        }
        other => panic!("unexpected: {:?}", other),
    }
    assert!(matches!(queueing, Stage::Queueing));
    assert_eq!(answer(handle_submission(queueing, Event::Queued(true))), SubmissionReply::Accepted);
    assert_eq!(SubmissionReply::Accepted.status(), 200);
    assert_eq!(SubmissionReply::Accepted.body(), OK_JSON);
}

#[test]
fn duplicate_submission_gets_425() {
    let storing = Stage::Storing { user_id: 1, task_id: 2, lang: "c".to_string() };
    let reply = answer(handle_submission(storing, Event::Table(Stored::InProgress)));
    assert_eq!(reply, SubmissionReply::TooEarly);
    assert_eq!(reply.status(), 425);
    assert_eq!(reply.body(), "Previous submission still in queue. Check for results later.");
}

#[test]
fn submission_without_language_header_is_a_bad_request() {
    let reply =
        answer(handle_submission(Stage::Received, arrived(&["c", "1", "2"], Some("t"), None)));
    assert_eq!(reply, SubmissionReply::LanguageMissing);
    assert_eq!(reply.status(), 400);
    assert_eq!(reply.body(), "Language Header Missing");
}

#[test]
fn submission_without_token_is_unauthorized() {
    let reply =
        answer(handle_submission(Stage::Received, arrived(&["c", "1", "2"], None, Some("c"))));
    assert_eq!(reply, SubmissionReply::NotAuthorized);
    assert_eq!(reply.status(), 401);
    assert_eq!(reply.body(), "Not Authorized");
    let both_missing = answer(handle_submission(Stage::Received, arrived(&["c", "1", "2"], None, None)));
    assert_eq!(both_missing, SubmissionReply::NotAuthorized);
    let identifying = Stage::Identifying { assignment_id: 1, task_id: 2, lang: "c".to_string() };
    let unknown = answer(handle_submission(identifying, Event::User(None)));
    assert_eq!(unknown, SubmissionReply::NotAuthorized);
}

#[test]
fn submission_to_a_malformed_path_is_a_bad_request() {
    for segments in [
        &["c", "1"][..],
        &["c", "1", "2", "3"][..],
        &["c", "one", "2"][..],
        &["c", "1", "two"][..],
        &["c", "1", "99999999999"][..],
        &[][..],
    ] {
        let reply = answer(handle_submission(Stage::Received, arrived(segments, None, None)));
        assert_eq!(reply, SubmissionReply::BadRequest);
        assert_eq!(reply.status(), 400);
        assert_eq!(reply.body(), "Bad Request");
    }
}

#[test]
fn failing_store_and_full_queue_are_internal_errors() {
    let storing = Stage::Storing { user_id: 1, task_id: 2, lang: "c".to_string() };
    let failed = answer(handle_submission(storing, Event::Table(Stored::Failed)));
    assert_eq!(failed, SubmissionReply::StoreFailed);
    assert_eq!((failed.status(), failed.body()), (500, "Internal Error"));
    let full = answer(handle_submission(Stage::Queueing, Event::Queued(false)));
    assert_eq!(full, SubmissionReply::QueueFull);
    assert_eq!((full.status(), full.body()), (500, "Could not add submission to queue"));
}

#[test]
fn events_out_of_turn_end_the_handling() {
    let out_of_turn = [
        handle_submission(Stage::Received, Event::Queued(true)),
        handle_submission(Stage::Received, Event::User(Some(1))),
        handle_submission(Stage::Queueing, Event::Table(Stored::Recorded(false))),
        handle_submission(Stage::Done, Event::Queued(true)),
        handle_submission(Stage::Done, arrived(&["c", "1", "2"], Some("t"), Some("c"))),
        handle_submission(
            Stage::Storing { user_id: 1, task_id: 2, lang: "c".to_string() },
            Event::Queued(true),
        ),
        handle_submission(
            Stage::Identifying { assignment_id: 1, task_id: 2, lang: "c".to_string() },
            Event::Table(Stored::Recorded(true)),
        ),
    ];
    for next in out_of_turn {
        let reply = answer(next);
        assert_eq!(reply, SubmissionReply::OutOfTurn);
        assert_eq!((reply.status(), reply.body()), (500, "Internal Error"));
    }
}

#[test]
fn poll_needs_token_and_task() {
    let ok = retrieve_task_score(&path(&["c", "1", "5"]), Some("tok".to_string())).unwrap();
    assert_eq!(ok, ("tok".to_string(), 5));
    let no_token = retrieve_task_score(&path(&["c", "1", "5"]), None).unwrap_err();
    assert_eq!(pair(&no_token), (401, "Access Denied."));
    let bad_path = retrieve_task_score(&path(&["c", "1"]), Some("tok".to_string())).unwrap_err();
    assert_eq!(pair(&bad_path), (400, "Invalid URL"));
    let bad_id = retrieve_task_score(&path(&["c", "1", "x"]), Some("tok".to_string())).unwrap_err();
    assert_eq!(pair(&bad_id), (400, "Invalid URL"));
}

#[test]
fn poll_is_answered_by_what_the_store_holds() {
    assert_eq!(pair(&score_reply(Polled::Results(Some("{}".to_string())))), (200, "{}"));
    assert_eq!(pair(&score_reply(Polled::Results(None))), (404, "Not Found."));
    assert_eq!(pair(&score_reply(Polled::InProgress)), (425, "Submission in progress"));
    assert_eq!(pair(&score_reply(Polled::UnknownUser)), (401, "Access Denied."));
    assert_eq!(pair(&score_reply(Polled::Failed)), (500, "Internal Error."));
}

#[test]
fn material_is_asked_for_by_task() {
    assert_eq!(download_material(&path(&["c", "1", "5"])).unwrap(), 5);
    assert_eq!(pair(&download_material(&path(&["c", "1"])).unwrap_err()), (400, "Bad Request."));
    assert_eq!(pair(&download_material(&path(&["c", "1", ""])).unwrap_err()), (400, "Bad Request."));
    assert_eq!(pair(&material_reply(Some("m".to_string()))), (200, "m"));
    assert_eq!(pair(&material_reply(None)), (404, "No material found."));
}

#[test]
fn assignment_and_class_are_read_from_the_path() {
    assert_eq!(get_assignment(&path(&["c", "8"])).unwrap(), 8);
    assert_eq!(pair(&get_assignment(&path(&["c", "8", "9"])).unwrap_err()), (400, "Bad Request"));
    assert_eq!(pair(&get_assignment(&path(&["c", "x"])).unwrap_err()), (400, "Bad Request"));
    assert_eq!(get_class_info(&path(&["CS101", "1"])).unwrap(), "CS101");
    assert_eq!(pair(&get_class_info(&path(&[])).unwrap_err()), (400, "Bad Request."));
}

#[test]
fn instructor_paths() {
    assert_eq!(download_submission(&path(&["c", "3", "ada"])).unwrap(), (3, "ada".to_string()));
    assert_eq!(pair(&download_submission(&path(&["c", "3"])).unwrap_err()), (400, "Bad Request."));
    assert_eq!(
        pair(&download_submission(&path(&["c", "x", "ada"])).unwrap_err()),
        (400, "Bad Request.")
    );
    assert_eq!(retrieve_scores(&path(&["c", "3"])).unwrap(), 3);
    assert_eq!(pair(&retrieve_scores(&path(&["c"])).unwrap_err()), (400, "Bad Request."));
    assert_eq!(retrieve_full_assignment_info(&path(&["c", "3", "more"])).unwrap(), 3);
    assert_eq!(
        pair(&retrieve_full_assignment_info(&path(&["c"])).unwrap_err()),
        (400, "Invalid URL parameters.")
    );
}

#[test]
fn join_code_is_written_in_upper_case_hexadecimal() {
    assert_eq!(join_code(&[0, 9, 10, 15, 16, 255]), "09AF0F");
    assert_eq!(join_code(&[0x1b, 0x2c, 0x3d]), "BCD");
    assert_eq!(join_code(&[]), "");
    let all: Vec<u8> = (0..16).collect();
    assert_eq!(join_code(&all), "0123456789ABCDEF");
}

#[test]
fn generated_join_code_has_six_hexadecimal_digits() {
    assert_eq!(JOIN_CODE_LENGTH, 6);
    let mut seen = Vec::new();
    for _ in 0..20 {
        let code = generate_join_code();
        assert_eq!(code.len(), 6);
        assert!(code.chars().all(|c| "0123456789ABCDEF".contains(c)));
        seen.push(code);
    }
    seen.dedup();
    assert!(seen.len() > 1);
    assert_eq!(pair(&join_code_reply("0A1B2C")), (200, "{ \"join_code\": \"0A1B2C\" }"));
}

#[test]
fn join_request_needs_a_code_and_reads_it_in_upper_case() {
    assert_eq!(join_class(&Some("a1b2c3".to_string())).unwrap(), "A1B2C3");
    assert_eq!(join_class(&Some("straße".to_string())).unwrap(), "STRASSE");
    assert_eq!(pair(&join_class(&None).unwrap_err()), (400, "Bad Request."));
    assert_eq!(pair(&join_class_reply(Joined::Enrolled)), (200, OK_JSON));
    assert_eq!(pair(&join_class_reply(Joined::NoSuchCode)), (404, "Invalid Join Code."));
    assert_eq!(pair(&join_class_reply(Joined::Failed)), (500, "Internal Server Error."));
}

#[test]
fn signup_and_login_answer_with_the_token() {
    let session = Session::new([0, 1, 2, 3, 4, 5, 6, 7, 8, 9, 10, 11, 12, 13, 14, 15]);
    let expected = "{\"session_base\":\"AAECAwQFBgcICQoLDA0ODw==\"}";
    assert_eq!(pair(&login(Some(&session))), (200, expected));
    assert_eq!(pair(&signup(Some(&session))), (200, expected));
    assert_eq!(pair(&session_reply(Some(&session))), (200, expected));
    assert_eq!(pair(&login(None)), (500, "Internal Error"));
    assert_eq!(pair(&signup(None)), (500, "Internal Error"));
}

#[test]
fn assignment_is_added_for_the_class_in_the_path() {
    let (class, rows) = add_assignment(&path(&["CS101"]), &writing_request()).unwrap();
    assert_eq!(class, "CS101");
    assert_eq!(rows.assignment_name, "Homework");
    assert_eq!(rows.deadline, Timestamp { secs: 1704067200, nanos: 0 });
    assert_eq!(rows.tasks[0].material, None);
    assert_eq!(rows.tasks[0].tests[0].input, "1");
}

#[test]
fn assignment_is_replaced_by_the_identifier_in_the_path() {
    let mut request = writing_request();
    request.tasks.as_mut().unwrap()[0].material_base64 = Some("aGVsbG8=".to_string());
    let (id, rows) = update_assignment(&path(&["CS101", "12"]), &request).unwrap();
    assert_eq!(id, 12);
    assert_eq!(rows.tasks[0].material, Some(b"hello".to_vec()));
}

#[test]
fn every_refusal_to_write_has_its_reply() {
    let bad_path = add_assignment(&path(&[]), &writing_request()).unwrap_err();
    assert!(matches!(bad_path, WriteRefusal::BadPath));
    assert_eq!(pair(&bad_path.reply()), (400, "Bad Request."));
    let no_id = update_assignment(&path(&["CS101"]), &writing_request()).unwrap_err();
    assert!(matches!(no_id, WriteRefusal::BadPath));
    let mut nameless = writing_request();
    nameless.assignment_name = None;
    let missing = add_assignment(&path(&["CS101"]), &nameless).unwrap_err();
    assert!(matches!(missing, WriteRefusal::MissingFields));
    assert_eq!(
        pair(&missing.reply()),
        (400, "Missing required fields assignment_name or deadline.")
    );
    let mut taskless = writing_request();
    taskless.tasks = None;
    let missing = update_assignment(&path(&["CS101", "1"]), &taskless).unwrap_err();
    assert!(matches!(missing, WriteRefusal::MissingFields));
    let strict = update_assignment(&path(&["CS101", "1"]), &writing_request()).unwrap_err();
    assert!(matches!(strict, WriteRefusal::Unstorable(AssignmentError::Material)));
    assert_eq!(pair(&strict.reply()), (500, "Internal Error."));
    let mut undated = writing_request();
    undated.deadline = Some("soon".to_string());
    let refused = add_assignment(&path(&["CS101"]), &undated).unwrap_err();
    assert!(matches!(refused, WriteRefusal::Unstorable(AssignmentError::Deadline)));
    let mut broken = writing_request();
    broken.tasks.as_mut().unwrap()[0].tests[0].output = None;
    let refused = add_assignment(&path(&["CS101"]), &broken).unwrap_err();
    assert!(matches!(
        refused,
        WriteRefusal::Unstorable(AssignmentError::Output(TextError::Missing))
    ));
}

#[test]
fn supported_languages_are_the_entries_of_the_recipe_directory() {
    let entries =
        vec![Some("python313".to_string()), Some("c".to_string()), Some("rust".to_string())];
    assert_eq!(supported_languages(entries), vec!["python313", "c", "rust"]);
    assert!(supported_languages(vec![]).is_empty());
}

#[test]
fn entries_without_a_name_are_no_languages() {
    let entries = vec![None, Some("c".to_string()), None, Some("rust".to_string()), None];
    assert_eq!(supported_languages(entries), vec!["c", "rust"]);
    assert!(supported_languages(vec![None]).is_empty());
}

#[test]
fn listings_are_answered_as_json() {
    assert_eq!(pair(&listing_reply(Some("[]".to_string()))), (200, "[]"));
    assert_eq!(pair(&listing_reply(None)), (500, "Internal Server Error."));
    assert_eq!(pair(&get_classes(Some("[1]".to_string()))), (200, "[1]"));
    assert_eq!(pair(&get_classes(None)), (500, "Internal Server Error."));
    assert_eq!(pair(&list_all_students(Some("[2]".to_string()))), (200, "[2]"));
    assert_eq!(pair(&list_all_students(None)), (500, "Internal Server Error."));
    assert_eq!(pair(&add_instructor(true)), (200, OK_JSON));
    assert_eq!(pair(&add_instructor(false)), (500, "Internal Error."));
    assert_eq!(pair(&add_student(true)), (200, OK_JSON));
    assert_eq!(pair(&add_student(false)), (500, "Internal Error."));
}

#[test]
fn poll_reads_the_table() {
    let mut table = GradeTable::new();
    let t = Timestamp::new(0, 0);
    assert!(matches!(poll(&table, 1, 2), Polled::Results(None)));
    submit(&mut table, 1, 9, 2, t, t, vec![]).unwrap();
    assert!(matches!(poll(&table, 1, 2), Polled::InProgress));
    assert!(matches!(poll(&table, 1, 3), Polled::Results(None)));
    container_add_task_grade(&mut table, 1, 2, b"{\"passes\":1}".to_vec(), Ratio::new(1, 1))
        .unwrap();
    match poll(&table, 1, 2) {
        Polled::Results(Some(json)) => assert_eq!(json, "{\"passes\":1}"),
        other => panic!("unexpected: {:?}", other),
    }
    submit(&mut table, 1, 9, 3, t, t, vec![]).unwrap();
    container_add_task_error(&mut table, 1, 3, "failed".to_string());
    assert!(matches!(poll(&table, 1, 3), Polled::Results(None)));
    submit(&mut table, 1, 9, 4, t, t, vec![]).unwrap();
    container_add_task_grade(&mut table, 1, 4, vec![0xff], Ratio::new(0, 1)).unwrap();
    assert!(matches!(poll(&table, 1, 4), Polled::Failed));
}
