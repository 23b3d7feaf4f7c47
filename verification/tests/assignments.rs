use securegrade::assignment::preferences::Preferences;
use securegrade::assignment::Assignment as AssignmentFile;
use securegrade::database::assignment::{
    add_assignment, assignment_rows, container_get_task_details, download_material,
    get_assignment_info, get_assignments_for_class, graded, new_task, new_tasks, new_test,
    new_tests, parse_method, retrieve_full_assignment_info, text_from, update_assignment,
    AssignmentError, Method, StoredTask, StoredTest, Task, TextError,
};
use securegrade::model::request::{Task as ReqTask, Test as ReqTest};
use securegrade::score::Ratio;
use securegrade::time::Timestamp;
use std::collections::BTreeMap;

fn literal(name: &str, input: &str, output: &str) -> ReqTest {
    ReqTest {
        test_name: Some(name.to_string()),
        is_public: true,
        input: Some(input.to_string()),
        output: Some(output.to_string()),
        input_file_base64: None,
        output_file_base64: None,
    }
}

fn task(description: &str, tests: Vec<ReqTest>) -> ReqTask {
    ReqTask {
        task_description: description.to_string(),
        allow_editor: true,
        material_base64: None,
        material_filename: None,
        timeout: Some(3),
        tests,
    }
}

fn stored_test(name: &str, timeout: Option<i32>) -> StoredTest {
    StoredTest {
        test_name: Some(name.to_string()),
        input: format!("{name}-in"),
        output: format!("{name}-out"),
        public: name.starts_with('p'),
        timeout,
    }
}

#[test]
fn text_comes_from_the_literal_without_a_file() {
    assert_eq!(text_from(None, &Some("abc".to_string())), Ok("abc".to_string()));
}

#[test]
fn text_comes_from_the_file_where_there_is_one() {
    let file = Some(Some("5\n".as_bytes().to_vec()));
    assert_eq!(text_from(file, &Some("ignored".to_string())), Ok("5\n".to_string()));
    let unicode = Some(Some("é日本".as_bytes().to_vec()));
    assert_eq!(text_from(unicode, &None), Ok("é日本".to_string()));
}

#[test]
fn text_without_file_and_literal_is_missing() {
    assert_eq!(text_from(None, &None), Err(TextError::Missing));
}

#[test]
fn text_of_a_malformed_file_is_an_error() {
    assert_eq!(text_from(Some(None), &Some("x".to_string())), Err(TextError::Base64));
    assert_eq!(text_from(Some(Some(vec![0xff, 0xfe])), &None), Err(TextError::Utf8));
}

#[test]
fn test_rows_take_input_and_output_as_given() {
    let row = new_test(&literal("sum", "2 3\n", "5\n"), Some(2)).unwrap();
    assert_eq!(row.test_name, Some("sum".to_string()));
    assert_eq!(row.input, "2 3\n");
    assert_eq!(row.output, "5\n");
    assert!(row.public);
    assert_eq!(row.timeout, Some(2));
}

#[test]
fn test_rows_decode_files() {
    let mut test = literal("sum", "ignored", "ignored too");
    test.input_file_base64 = Some("aGVsbG8=".to_string());
    test.output_file_base64 = Some("NQo=".to_string());
    test.is_public = false;
    let row = new_test(&test, None).unwrap();
    assert_eq!(row.input, "hello");
    assert_eq!(row.output, "5\n");
    assert!(!row.public);
    assert_eq!(row.timeout, None);
}

#[test]
fn every_way_a_test_can_fail_has_its_error() {
    let mut no_input = literal("t", "", "");
    no_input.input = None;
    assert_eq!(new_test(&no_input, None).unwrap_err(), AssignmentError::Input(TextError::Missing));
    let mut no_output = literal("t", "", "");
    no_output.output = None;
    assert_eq!(new_test(&no_output, None).unwrap_err(), AssignmentError::Output(TextError::Missing));
    let mut bad_input = literal("t", "", "");
    bad_input.input_file_base64 = Some("%%%".to_string());
    assert_eq!(new_test(&bad_input, None).unwrap_err(), AssignmentError::Input(TextError::Base64));
    let mut bad_output = literal("t", "", "");
    bad_output.output_file_base64 = Some("//4=".to_string());
    assert_eq!(new_test(&bad_output, None).unwrap_err(), AssignmentError::Output(TextError::Utf8));
}

#[test]
fn input_is_looked_at_before_output() {
    let mut both_bad = literal("t", "", "");
    both_bad.input = None;
    both_bad.output_file_base64 = Some("%%%".to_string());
    assert_eq!(new_test(&both_bad, None).unwrap_err(), AssignmentError::Input(TextError::Missing));
}

#[test]
fn first_failing_test_decides() {
    let mut second = literal("b", "", "");
    second.output = None;
    let mut third = literal("c", "", "");
    third.input = None;
    let tests = vec![literal("a", "1", "1"), second, third];
    assert_eq!(new_tests(&tests, None).unwrap_err(), AssignmentError::Output(TextError::Missing));
    let fine = new_tests(&vec![literal("a", "1", "2"), literal("b", "3", "4")], Some(9)).unwrap();
    assert_eq!(fine.len(), 2);
    assert_eq!(fine[1].test_name, Some("b".to_string()));
    assert_eq!(fine[1].input, "3");
    assert_eq!(fine[0].timeout, Some(9));
    assert!(new_tests(&vec![], None).unwrap().is_empty());
}

#[test]
fn task_rows_carry_the_timeout_of_the_task_to_its_tests() {
    let row = new_task(&task("first", vec![literal("a", "1", "2")]), 4, false).unwrap();
    assert_eq!(row.task_description, "first");
    assert!(row.allow_editor);
    assert_eq!(row.placement, 4);
    assert_eq!(row.material, None);
    assert_eq!(row.material_filename, None);
    assert_eq!(row.tests.len(), 1);
    assert_eq!(row.tests[0].timeout, Some(3));
}

#[test]
fn material_is_decoded() {
    let mut with_material = task("m", vec![]);
    with_material.material_base64 = Some("aGVsbG8=".to_string());
    with_material.material_filename = Some("notes.txt".to_string());
    let row = new_task(&with_material, 0, true).unwrap();
    assert_eq!(row.material, Some(b"hello".to_vec()));
    assert_eq!(row.material_filename, Some("notes.txt".to_string()));
}

#[test]
fn malformed_material_is_dropped_on_add_and_refused_on_update() {
    let mut bad = task("m", vec![literal("a", "1", "2")]);
    bad.material_base64 = Some("not base64".to_string());
    assert_eq!(new_task(&bad, 0, false).unwrap().material, None);
    assert_eq!(new_task(&bad, 0, true).unwrap_err(), AssignmentError::Material);
    let tasks = vec![bad];
    let deadline = "2024-01-01T00:00:00Z";
    assert!(add_assignment("A".to_string(), None, deadline, &tasks).is_ok());
    assert_eq!(
        update_assignment("A".to_string(), None, deadline, &tasks).unwrap_err(),
        AssignmentError::Material
    );
}

#[test]
fn material_is_looked_at_before_the_tests() {
    let mut broken = literal("a", "", "");
    broken.input = None;
    let mut bad = task("m", vec![broken]);
    bad.material_base64 = Some("***".to_string());
    assert_eq!(new_task(&bad, 0, true).unwrap_err(), AssignmentError::Material);
    assert_eq!(new_task(&bad, 0, false).unwrap_err(), AssignmentError::Input(TextError::Missing));
}

#[test]
fn tasks_are_placed_in_the_order_given() {
    let tasks = vec![task("a", vec![]), task("b", vec![]), task("c", vec![])];
    let rows = new_tasks(&tasks, false).unwrap();
    let placed: Vec<(usize, &str)> =
        rows.iter().map(|r| (r.placement, r.task_description.as_str())).collect();
    assert_eq!(placed, vec![(0, "a"), (1, "b"), (2, "c")]);
}

#[test]
fn first_failing_task_decides() {
    let mut bad_test = literal("x", "", "");
    bad_test.input_file_base64 = Some("//4=".to_string());
    let mut bad_material = task("m", vec![]);
    bad_material.material_base64 = Some("?".to_string());
    let tasks = vec![task("ok", vec![]), task("bad", vec![bad_test]), bad_material];
    assert_eq!(new_tasks(&tasks, true).unwrap_err(), AssignmentError::Input(TextError::Utf8));
}

#[test]
fn new_assignment_reads_the_deadline() {
    let tasks = vec![task("only", vec![literal("a", "1", "2")])];
    let rows = add_assignment(
        "Homework".to_string(),
        Some("first one".to_string()),
        "2024-01-01T00:00:00Z",
        &tasks,
    )
    .unwrap();
    assert_eq!(rows.assignment_name, "Homework");
    assert_eq!(rows.assignment_description, Some("first one".to_string()));
    assert_eq!(rows.deadline, Timestamp { secs: 1704067200, nanos: 0 });
    assert_eq!(rows.tasks.len(), 1);
    assert_eq!(rows.tasks[0].tests[0].output, "2");
}

#[test]
fn deadline_may_be_written_in_several_ways() {
    for text in ["2024-01-02 00:00:00Z", "2024-01-02T01:00:00+01:00", "2024-01-02 00:00:00+0000"] {
        let rows = update_assignment("A".to_string(), None, text, &vec![]).unwrap();
        assert_eq!(rows.deadline, Timestamp { secs: 1704153600, nanos: 0 }, "for {text}");
    }
    let fraction = add_assignment("A".to_string(), None, "2024-01-02T00:00:00.25Z", &vec![]).unwrap();
    assert_eq!(fraction.deadline, Timestamp { secs: 1704153600, nanos: 250_000_000 });
}

#[test]
fn malformed_deadline_is_refused_before_anything_else() {
    let mut broken = literal("a", "", "");
    broken.input = None;
    let tasks = vec![task("t", vec![broken])];
    for text in ["", "tomorrow", "2024-01-01", "2024-13-01T00:00:00Z"] {
        assert_eq!(
            add_assignment("A".to_string(), None, text, &tasks).unwrap_err(),
            AssignmentError::Deadline
        );
        assert_eq!(
            update_assignment("A".to_string(), None, text, &tasks).unwrap_err(),
            AssignmentError::Deadline
        );
    }
    assert_eq!(
        assignment_rows("A".to_string(), None, None, &tasks, false).unwrap_err(),
        AssignmentError::Deadline
    );
    assert_eq!(
        assignment_rows("A".to_string(), None, Some(Timestamp::new(0, 0)), &tasks, false)
            .unwrap_err(),
        AssignmentError::Input(TextError::Missing)
    );
}

#[test]
fn method_is_stdio_or_http_with_a_port() {
    assert_eq!(parse_method("stdio"), Some(Method::Stdio));
    assert_eq!(parse_method("http:8080"), Some(Method::Http(8080)));
    assert_eq!(parse_method("http:0"), Some(Method::Http(0)));
    assert_eq!(parse_method("http:65535"), Some(Method::Http(65535)));
}

#[test]
fn other_methods_are_unknown() {
    for text in ["", "STDIO", "stdio ", "http", "http:", "http:65536", "http:80:80", "https:80", "http:-1", "ftp:21x"] {
        assert_eq!(parse_method(text), None, "for {text:?}");
    }
}

#[test]
fn grader_reads_stored_tests_in_order() {
    let rows = vec![stored_test("pa", Some(5)), stored_test("qb", None)];
    let tests = container_get_task_details(&rows);
    assert_eq!(tests.len(), 2);
    assert_eq!(tests[0].test_name, Some("pa".to_string()));
    assert_eq!(tests[0].input, "pa-in");
    assert_eq!(tests[0].output, "pa-out");
    assert!(tests[0].public);
    assert_eq!(tests[0].timeout, Some(5));
    assert!(!tests[1].public);
    assert_eq!(tests[1].timeout, None);
}

#[test]
fn negative_time_limit_wraps_to_a_very_long_one() {
    assert_eq!(graded(&stored_test("a", Some(-1))).timeout, Some(u64::MAX));
    assert_eq!(graded(&stored_test("a", Some(i32::MIN))).timeout, Some((i32::MIN as i64) as u64));
    assert_eq!(graded(&stored_test("a", Some(0))).timeout, Some(0));
    assert_eq!(graded(&stored_test("a", Some(i32::MAX))).timeout, Some(2147483647));
}

#[test]
fn instructor_sees_the_full_assignment() {
    let tasks = vec![
        StoredTask {
            task_description: "first".to_string(),
            allow_editor: false,
            material: Some(b"hello".to_vec()),
            material_filename: Some("notes.txt".to_string()),
            tests: vec![stored_test("pa", Some(5)), stored_test("qb", None)],
        },
        StoredTask {
            task_description: "second".to_string(),
            allow_editor: true,
            material: None,
            material_filename: None,
            tests: vec![],
        },
    ];
    let info = retrieve_full_assignment_info(
        "Homework".to_string(),
        Timestamp { secs: 1431648000, nanos: 0 },
        &tasks,
    )
    .unwrap();
    assert_eq!(info.assignment_name, "Homework");
    assert_eq!(info.deadline, "2015-05-15 00:00:00 UTC");
    assert_eq!(info.tasks.len(), 2);
    assert_eq!(info.tasks[0].task_description, "first");
    assert_eq!(info.tasks[0].material_base64, Some("aGVsbG8=".to_string()));
    assert_eq!(info.tasks[0].material_filename, Some("notes.txt".to_string()));
    assert_eq!(info.tasks[0].timeout, None);
    assert_eq!(info.tasks[0].tests.len(), 2);
    assert_eq!(info.tasks[0].tests[1].test_name, Some("qb".to_string()));
    assert_eq!(info.tasks[0].tests[1].input, Some("qb-in".to_string()));
    assert_eq!(info.tasks[0].tests[1].output, Some("qb-out".to_string()));
    assert_eq!(info.tasks[0].tests[1].input_file_base64, None);
    assert!(info.tasks[0].tests[0].is_public);
    assert!(info.tasks[1].allow_editor);
    assert_eq!(info.tasks[1].material_base64, None);
    assert!(info.tasks[1].tests.is_empty());
}

#[test]
fn deadline_outside_of_the_calendar_cannot_be_shown() {
    let beyond = Timestamp { secs: i64::MAX, nanos: 0 };
    assert!(retrieve_full_assignment_info("A".to_string(), beyond, &vec![]).is_none());
    assert!(get_assignment_info(1, "A".to_string(), None, beyond, vec![]).is_none());
    assert!(get_assignments_for_class(1, "A".to_string(), None, beyond, None).is_none());
    let bad_nanos = Timestamp { secs: 0, nanos: 2_000_000_000 };
    assert!(get_assignment_info(1, "A".to_string(), None, bad_nanos, vec![]).is_none());
}

#[test]
fn student_sees_the_assignment() {
    let tasks = vec![Task {
        description: Some("do it".to_string()),
        task_id: 4,
        placement: 0,
        allow_editor: true,
        has_material: false,
    }];
    let shown = get_assignment_info(
        9,
        "Homework".to_string(),
        Some("d".to_string()),
        Timestamp { secs: 1704067200, nanos: 0 },
        tasks,
    )
    .unwrap();
    assert_eq!(shown.assignment_id, 9);
    assert_eq!(shown.name, "Homework");
    assert_eq!(shown.description, Some("d".to_string()));
    assert_eq!(shown.deadline, "2024-01-01 00:00:00 UTC");
    assert_eq!(shown.tasks.len(), 1);
    assert_eq!(shown.tasks[0].task_id, 4);
}

#[test]
fn class_list_shows_the_score_or_zero() {
    let deadline = Timestamp { secs: 1704067200, nanos: 500_000_000 };
    let scored =
        get_assignments_for_class(1, "A".to_string(), None, deadline, Some(Ratio::new(3, 8)))
            .unwrap();
    assert_eq!(scored.assignment_score, Ratio::new(3, 8));
    assert_eq!(scored.assignment_deadline, "2024-01-01 00:00:00.500 UTC");
    let unscored =
        get_assignments_for_class(2, "B".to_string(), Some("b".to_string()), deadline, None).unwrap();
    assert_eq!(unscored.assignment_id, 2);
    assert_eq!(unscored.assignment_name, "B");
    assert_eq!(unscored.assignment_description, Some("b".to_string()));
    assert_eq!(unscored.assignment_score, Ratio::new(0, 1));
}

#[test]
fn material_is_downloaded_as_base64() {
    let material = Some(b"hello".to_vec());
    assert_eq!(
        download_material(&material, "notes.txt".to_string()),
        ("aGVsbG8=".to_string(), "notes.txt".to_string())
    );
    assert_eq!(download_material(&None, "none".to_string()), (String::new(), "none".to_string()));
}

#[test]
fn assignment_file_hands_out_its_preferences() {
    let file = AssignmentFile {
        preferences: Preferences {
            assignment_name: Some("A".to_string()),
            description: Some("about".to_string()),
            timeout: Some(30),
        },
        tests: BTreeMap::new(),
    };
    assert_eq!(file.get_description(), Some("about".to_string()));
    assert_eq!(file.get_timeout(), Some(30));
    let bare = AssignmentFile { preferences: Preferences::default(), tests: BTreeMap::new() };
    assert_eq!(bare.get_description(), None);
    assert_eq!(bare.get_timeout(), None);
}
