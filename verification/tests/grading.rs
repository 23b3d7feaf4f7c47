use securegrade::container::image::{Image, ImageBuilder, RunOutput};
use securegrade::container::{
    archive_name, finish_job, get_container_for_language, grade_task, permit_change,
    record_outcome, workdir, ContainerEntry, PermitChange, DEFAULT_PERMITS,
    LANGUAGE_NOT_SUPPORTED, WORKDIR_ROOT,
};
use securegrade::database::assignment::operations::{
    mark_as_submitted, submission_in_progress, GradeTable,
};
use securegrade::database::assignment::Test;
use securegrade::docker::DockerBuilder;
use securegrade::model::submission_response::{Status, SubmissionResponse};
use securegrade::score::Ratio;
use securegrade::time::Timestamp;

fn test_case(name: Option<&str>, public: bool, input: &str, output: &str) -> Test {
    Test {
        test_name: name.map(|n| n.to_string()),
        public,
        output: output.to_string(),
        input: input.to_string(),
        timeout: None,
    }
}

fn printed(text: &str) -> Result<Option<String>, String> {
    Ok(Some(text.to_string()))
}

fn image() -> Image {
    ImageBuilder::new("/tmp/work".to_string()).build("sha256:abc\n", "").unwrap()
}

#[test]
fn single_test_pass() {
    let tests = vec![test_case(None, false, "2 3\n", "5\n")];
    let results = grade_task(&tests, &vec![printed("5\n")], false);
    assert_eq!(results.tests().len(), 1);
    assert_eq!(results.tests()[0].test_name, "");
    assert_eq!(results.tests()[0].status, Status::Pass);
    assert_eq!(results.tests()[0].status.label(), "PASS");
    assert!(results.tests()[0].input_output.is_none());
    assert_eq!(results.passes(), 1);
    assert_eq!(results.score(), Ratio { numerator: 1, denominator: 1 });
}

#[test]
fn timeout_counts_as_no_pass() {
    let mut test = test_case(None, false, "", "done");
    test.timeout = Some(1);
    let results = grade_task(&vec![test], &vec![Ok(None)], false);
    assert_eq!(results.tests()[0].status, Status::TimedOut);
    assert_eq!(results.tests()[0].status.label(), "TIMED OUT");
    assert_eq!(results.passes(), 0);
    assert_eq!(results.score(), Ratio { numerator: 0, denominator: 1 });
}

#[test]
fn public_fail_discloses_input_expected_and_found() {
    let tests = vec![test_case(Some("t"), true, "x", "y")];
    let results = grade_task(&tests, &vec![printed("z")], false);
    let entry = &results.tests()[0];
    assert_eq!(entry.test_name, "t");
    assert_eq!(entry.status, Status::Fail);
    assert_eq!(entry.status.label(), "FAIL");
    let io = entry.input_output.as_ref().unwrap();
    assert_eq!(io.input, "x");
    assert_eq!(io.expected, "y");
    assert_eq!(io.found, "z");
}

#[test]
fn private_fail_discloses_nothing() {
    let tests = vec![test_case(Some("t"), false, "x", "y")];
    let results = grade_task(&tests, &vec![printed("z")], false);
    assert_eq!(results.tests()[0].status, Status::Fail);
    assert!(results.tests()[0].input_output.is_none());
}

#[test]
fn private_tests_never_disclose() {
    let tests = vec![
        test_case(None, false, "in", "out"),
        test_case(None, false, "in", "out"),
        test_case(None, false, "in", "out"),
        test_case(None, false, "in", "out"),
    ];
    let outcomes = vec![printed("out"), printed("other"), Ok(None), Err("boom".to_string())];
    let results = grade_task(&tests, &outcomes, true);
    let statuses: Vec<Status> = results.tests().iter().map(|t| t.status).collect();
    assert_eq!(statuses, vec![Status::Late, Status::Fail, Status::TimedOut, Status::Error]);
    assert!(results.tests().iter().all(|t| t.input_output.is_none()));
}

#[test]
fn output_is_compared_after_trimming() {
    let tests = vec![test_case(None, true, " 2 3 \n", "5\n")];
    let results = grade_task(&tests, &vec![printed("  5  \r\n")], false);
    let entry = &results.tests()[0];
    assert_eq!(entry.status, Status::Pass);
    let io = entry.input_output.as_ref().unwrap();
    assert_eq!(io.input, "2 3");
    assert_eq!(io.expected, "5");
    assert_eq!(io.found, "5");
}

#[test]
fn inner_white_space_matters() {
    let tests = vec![test_case(None, false, "", "a b")];
    let results = grade_task(&tests, &vec![printed("a  b")], false);
    assert_eq!(results.tests()[0].status, Status::Fail);
}

#[test]
fn late_pass_is_labelled_late_and_still_counts() {
    let tests = vec![test_case(None, false, "", "ok")];
    let results = grade_task(&tests, &vec![printed("ok")], true);
    assert_eq!(results.tests()[0].status, Status::Late);
    assert_eq!(results.tests()[0].status.label(), "LATE");
    assert_eq!(results.passes(), 1);
    assert_eq!(results.score(), Ratio { numerator: 1, denominator: 1 });
}

#[test]
fn public_timeout_discloses_untrimmed_input_and_nothing_found() {
    let tests = vec![test_case(Some("slow"), true, " in ", " out ")];
    let results = grade_task(&tests, &vec![Ok(None)], false);
    let io = results.tests()[0].input_output.as_ref().unwrap();
    assert_eq!(io.input, " in ");
    assert_eq!(io.expected, " out ");
    assert_eq!(io.found, "");
}

#[test]
fn public_error_discloses_the_error_text() {
    let tests = vec![test_case(Some("bad"), true, "in", "out")];
    let results = grade_task(&tests, &vec![Err("Traceback".to_string())], false);
    let entry = &results.tests()[0];
    assert_eq!(entry.status, Status::Error);
    assert_eq!(entry.status.label(), "ERR");
    assert_eq!(entry.input_output.as_ref().unwrap().found, "Traceback");
}

#[test]
fn one_entry_per_test_in_test_order() {
    let tests = vec![
        test_case(Some("first"), false, "", "1"),
        test_case(Some("second"), true, "", "2"),
        test_case(Some("third"), false, "", "3"),
    ];
    let outcomes = vec![printed("1"), printed("x"), printed("3")];
    let results = grade_task(&tests, &outcomes, false);
    let names: Vec<&str> = results.tests().iter().map(|t| t.test_name.as_str()).collect();
    assert_eq!(names, vec!["first", "second", "third"]);
    assert_eq!(results.tests().len(), tests.len());
    assert_eq!(results.passes(), 2);
    let score = results.score();
    assert_eq!(score, Ratio { numerator: 2, denominator: 3 });
    assert!(score.check_grade());
}

#[test]
fn task_without_tests_scores_zero() {
    let results = grade_task(&vec![], &vec![], false);
    assert_eq!(results.tests().len(), 0);
    assert_eq!(results.score(), Ratio { numerator: 0, denominator: 1 });
}

#[test]
fn record_outcome_appends() {
    let mut results = SubmissionResponse::default();
    let test = test_case(Some("a"), false, "", "1");
    record_outcome(&mut results, &test, &printed("1"), false);
    record_outcome(&mut results, &test, &printed("2"), false);
    assert_eq!(results.tests().len(), 2);
    assert_eq!(results.tests()[0].status, Status::Pass);
    assert_eq!(results.tests()[1].status, Status::Fail);
    assert_eq!(results.passes(), 1);
}

#[test]
fn language_is_found_by_its_directory_name() {
    let dirs = vec!["c".to_string(), "python313".to_string(), "rust".to_string()];
    assert_eq!(get_container_for_language(&dirs, "python313"), Some(1));
    assert_eq!(get_container_for_language(&dirs, "c"), Some(0));
    assert_eq!(get_container_for_language(&dirs, "rust"), Some(2));
}

#[test]
fn unknown_language_has_no_container() {
    let dirs = vec!["c".to_string(), "rust".to_string()];
    assert_eq!(get_container_for_language(&dirs, "java"), None);
    assert_eq!(get_container_for_language(&dirs, "C"), None);
    assert_eq!(get_container_for_language(&vec![], "c"), None);
    assert_eq!(LANGUAGE_NOT_SUPPORTED, "Language not supported");
}

#[test]
fn first_of_equal_directories_is_taken() {
    let dirs = vec!["c".to_string(), "rust".to_string(), "rust".to_string()];
    assert_eq!(get_container_for_language(&dirs, "rust"), Some(1));
}

#[test]
fn permits_default_to_twenty() {
    assert_eq!(DEFAULT_PERMITS, 20);
    assert_eq!(permit_change(DEFAULT_PERMITS, None), PermitChange::Keep);
}

#[test]
fn permits_are_added_or_forgotten() {
    assert_eq!(permit_change(20, Some(25)), PermitChange::Add(5));
    assert_eq!(permit_change(20, Some(4)), PermitChange::Forget(16));
    assert_eq!(permit_change(20, Some(20)), PermitChange::Keep);
    assert_eq!(permit_change(20, Some(0)), PermitChange::Forget(20));
    assert_eq!(permit_change(0, Some(usize::MAX)), PermitChange::Add(usize::MAX));
}

#[test]
fn container_entry_keeps_what_it_was_given() {
    let entry = ContainerEntry::new(vec![1, 2, 3], 7, 9, true, "rust".to_string());
    assert_eq!(entry.zip_file(), &vec![1, 2, 3]);
    assert_eq!(entry.user_id(), 7);
    assert_eq!(entry.task_id(), 9);
    assert!(entry.was_late());
    assert_eq!(entry.lang(), "rust");
}

#[test]
fn build_output_becomes_the_image_reference() {
    let builder = ImageBuilder::new("/tmp/securegrade/1-2".to_string());
    assert_eq!(builder.directory(), "/tmp/securegrade/1-2");
    let image = builder.build("sha256:0123\n", "").unwrap();
    assert_eq!(image.image_id(), "sha256:0123");
}

#[test]
fn build_error_stream_is_a_failure() {
    let builder = ImageBuilder::new("dir".to_string());
    let failure = builder.build("sha256:0123\n", "  no such file\n").unwrap_err();
    assert_eq!(failure, "no such file");
}

#[test]
fn white_space_on_the_build_error_stream_is_still_a_failure() {
    let builder = ImageBuilder::new("dir".to_string());
    assert_eq!(builder.build("id", " ").unwrap_err(), "");
}

#[test]
fn run_is_classified() {
    let image = image();
    let fine = RunOutput { timed_out: false, stdout: "5\n".to_string(), stderr: String::new() };
    assert_eq!(image.exec(fine), Ok(Some("5\n".to_string())));
    let failed =
        RunOutput { timed_out: false, stdout: "5\n".to_string(), stderr: " oops \n".to_string() };
    assert_eq!(image.exec(failed), Err("oops".to_string()));
    let slow = RunOutput { timed_out: true, stdout: String::new(), stderr: "x".to_string() };
    assert_eq!(image.exec(slow), Ok(None));
}

#[test]
fn docker_container_is_built_and_run_likewise() {
    let builder = DockerBuilder::new("dir".to_string());
    assert_eq!(builder.directory(), "dir");
    let container = builder.build(" abc \n", "").unwrap();
    assert_eq!(container.image_id(), "abc");
    assert_eq!(container.exec("out\n".to_string(), ""), Ok("out\n".to_string()));
    assert_eq!(container.exec("out\n".to_string(), "bad \n"), Err("bad".to_string()));
    let failed = DockerBuilder::new("dir".to_string()).build("", "broken\n");
    assert_eq!(failed.unwrap_err(), "broken");
}

#[test]
fn finished_job_writes_results_and_grade() {
    let mut table = GradeTable::new();
    let t0 = Timestamp::new(10, 0);
    let t1 = Timestamp::new(20, 0);
    mark_as_submitted(&mut table, 1, 5, 2, t0, t1, vec![9]).unwrap();
    assert!(submission_in_progress(&table, 1, 2));
    let tests = vec![test_case(None, false, "", "1"), test_case(None, false, "", "2")];
    let results = grade_task(&tests, &vec![printed("1"), printed("no")], false);
    finish_job(&mut table, 1, 2, Ok((b"{}".to_vec(), results)));
    assert!(!submission_in_progress(&table, 1, 2));
    let row = table.find(1, 2).unwrap();
    assert_eq!(row.grade, Some(Ratio { numerator: 1, denominator: 2 }));
    assert_eq!(row.json_results, Some(b"{}".to_vec()));
    assert_eq!(row.error, None);
    assert_eq!(row.submission_zip, vec![9]);
}

#[test]
fn failed_job_writes_a_terminal_error() {
    let mut table = GradeTable::new();
    mark_as_submitted(&mut table, 1, 5, 2, Timestamp::new(10, 0), Timestamp::new(20, 0), vec![9])
        .unwrap();
    finish_job(&mut table, 1, 2, Err(LANGUAGE_NOT_SUPPORTED.to_string()));
    assert!(!submission_in_progress(&table, 1, 2));
    let row = table.find(1, 2).unwrap();
    assert_eq!(row.grade, None);
    assert_eq!(row.error, Some("Language not supported".to_string()));
    assert_eq!(row.submission_zip, vec![9]);
}

#[test]
fn workspace_is_named_by_user_and_task() {
    assert_eq!(WORKDIR_ROOT, "/tmp/securegrade/");
    assert_eq!(workdir(12, 345), "/tmp/securegrade/12-345");
    assert_eq!(workdir(0, 0), "/tmp/securegrade/0-0");
    assert_eq!(workdir(-1, -2), "/tmp/securegrade/-1--2");
}

#[test]
fn workspaces_of_different_jobs_differ() {
    let ids = [-11, -1, 0, 1, 2, 11, 12, 111, 112];
    let mut paths = Vec::new();
    for user in ids {
        for task in ids {
            paths.push(workdir(user, task));
        }
    }
    let total = paths.len();
    paths.sort();
    paths.dedup();
    assert_eq!(paths.len(), total);
}

#[test]
fn archive_is_named_by_its_task() {
    assert_eq!(archive_name(7), "Task7.zip");
    assert_eq!(archive_name(120), "Task120.zip");
}
