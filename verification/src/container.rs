//! Grading one submission: which recipe serves a language, how each test run
//! is classified, and how many grading jobs may run at once.

use crate::database::assignment::operations::{
    container_add_task_error, container_add_task_grade, with_error, with_grade, GradeTable,
    TaskGradeView,
};
use crate::database::assignment::Test;
use crate::model::submission_response::{
    grade_of, pass_status, private_entry, public_entry, Status, SubmissionResponse, TestView,
};
use crate::text::{
    decimal_text, digit_value, i32_text, lemma_decimal_text_injective, lemma_decimal_text_shape, trim,
    trimmed,
};
use vstd::prelude::*;

pub mod image;
pub mod job;

verus! {

/// A submission waiting to be graded.
#[derive(Debug)]
pub struct ContainerEntry {
    zip_file: Vec<u8>,
    user_id: i32,
    task_id: i32,
    was_late: bool,
    lang: String,
}

impl ContainerEntry {
    pub closed spec fn spec_zip_file(&self) -> Seq<u8> {
        self.zip_file@
    }

    pub closed spec fn spec_user_id(&self) -> i32 {
        self.user_id
    }

    pub closed spec fn spec_task_id(&self) -> i32 {
        self.task_id
    }

    pub closed spec fn spec_was_late(&self) -> bool {
        self.was_late
    }

    pub closed spec fn spec_lang(&self) -> Seq<char> {
        self.lang@
    }

    pub fn new(zip_file: Vec<u8>, user_id: i32, task_id: i32, was_late: bool, lang: String) -> (entry:
        ContainerEntry)
        ensures
            entry.spec_zip_file() == zip_file@,
            entry.spec_user_id() == user_id,
            entry.spec_task_id() == task_id,
            entry.spec_was_late() == was_late,
            entry.spec_lang() == lang@,
    {
        ContainerEntry { zip_file, user_id, task_id, was_late, lang }
    }

    pub fn zip_file(&self) -> (archive: &Vec<u8>)
        ensures
            archive@ == self.spec_zip_file(),
    {
        &self.zip_file
    }

    pub fn user_id(&self) -> (id: i32)
        ensures
            id == self.spec_user_id(),
    {
        self.user_id
    }

    pub fn task_id(&self) -> (id: i32)
        ensures
            id == self.spec_task_id(),
    {
        self.task_id
    }

    pub fn was_late(&self) -> (late: bool)
        ensures
            late == self.spec_was_late(),
    {
        self.was_late
    }

    pub fn lang(&self) -> (lang: &String)
        ensures
            lang@ == self.spec_lang(),
    {
        &self.lang
    }
}

/// The number of grading jobs that may run at once unless configured
/// otherwise.
pub const DEFAULT_PERMITS: usize = 20;

/// How the number of permits has to change.
#[derive(Clone, Copy, Debug, PartialEq, Eq, Structural)]
pub enum PermitChange {
    Keep,
    Add(usize),
    Forget(usize),
}

impl PermitChange {
    /// The number of permits once the change is applied to `current`.
    pub open spec fn applied(self, current: int) -> int {
        match self {
            PermitChange::Keep => current,
            PermitChange::Add(n) => current + n,
            PermitChange::Forget(n) => current - n,
        }
    }
}

/// The change that takes the scheduler from `current` permits to the
/// configured number, if one is configured.
pub open spec fn permit_change_of(current: usize, configured: Option<usize>) -> PermitChange {
    match configured {
        None => PermitChange::Keep,
        Some(n) => if n > current {
            PermitChange::Add((n - current) as usize)
        } else if n < current {
            PermitChange::Forget((current - n) as usize)
        } else {
            PermitChange::Keep
        },
    }
}

/// Decides how to adjust the scheduler's permits at start-up.
pub fn permit_change(current: usize, configured: Option<usize>) -> (change: PermitChange)
    ensures
        change == permit_change_of(current, configured),
        configured is Some ==> change.applied(current as int) == configured->0,
        configured is None ==> change.applied(current as int) == current,
{
    match configured {
        None => PermitChange::Keep,
        Some(n) => if n > current {
            PermitChange::Add(n - current)
        } else if n < current {
            PermitChange::Forget(current - n)
        } else {
            PermitChange::Keep
        },
    }
}

/// Looks the language up among the names of the recipe directories: the
/// first directory named `lang`, if there is one.
pub fn get_container_for_language(containers: &Vec<String>, lang: &str) -> (found: Option<usize>)
    ensures
        match found {
            Some(i) => i < containers.len() && containers[i as int]@ == lang@ && forall|j: int|
                0 <= j < i ==> (#[trigger] containers[j])@ != lang@,
            None => forall|j: int| 0 <= j < containers.len() ==> (#[trigger] containers[j])@ != lang@,
        },
{
    let wanted = lang.to_owned();
    let mut i: usize = 0;
    while i < containers.len()
        invariant
            i <= containers.len(),
            wanted@ == lang@,
            forall|j: int| 0 <= j < i ==> (#[trigger] containers[j])@ != lang@,
        decreases containers.len() - i,
    {
        if containers[i] == wanted {
            return Some(i);
        }
        i = i + 1;
    }
    None
}

/// The entry that a test earns for the way its run ended.
///
/// The run ended in `Ok(Some(output))` when it printed `output` and nothing
/// on its error stream, in `Ok(None)` when it ran out of time, and in
/// `Err(message)` when its error stream held `message`. Output and expected
/// output are compared after trimming. A private test discloses nothing; a
/// public one discloses input, expected output and what was found.
pub open spec fn verdict(
    test: Test,
    outcome: Result<Option<String>, String>,
    was_late: bool,
) -> TestView {
    match outcome {
        Ok(Some(found)) => {
            let status = if trimmed(found@) == trimmed(test.output@) {
                pass_status(was_late)
            } else {
                Status::Fail
            };
            if test.public {
                public_entry(
                    test.test_name,
                    status,
                    trimmed(test.input@),
                    trimmed(test.output@),
                    trimmed(found@),
                )
            } else {
                private_entry(test.test_name, status)
            }
        },
        Ok(None) => {
            if test.public {
                public_entry(
                    test.test_name,
                    Status::TimedOut,
                    test.input@,
                    test.output@,
                    Seq::empty(),
                )
            } else {
                private_entry(test.test_name, Status::TimedOut)
            }
        },
        Err(message) => {
            if test.public {
                public_entry(test.test_name, Status::Error, test.input@, test.output@, message@)
            } else {
                private_entry(test.test_name, Status::Error)
            }
        },
    }
}

/// The entries of a whole task: one verdict per test, in test order.
pub open spec fn verdicts(
    tests: Seq<Test>,
    outcomes: Seq<Result<Option<String>, String>>,
    was_late: bool,
) -> Seq<TestView> {
    Seq::new(tests.len(), |i: int| verdict(tests[i], outcomes[i], was_late))
}

/// Appends to `results` the entry that `test` earns for `outcome`.
pub fn record_outcome(
    results: &mut SubmissionResponse,
    test: &Test,
    outcome: &Result<Option<String>, String>,
    was_late: bool,
)
    ensures
        final(results)@ == old(results)@.push(verdict(*test, *outcome, was_late)),
{
    match outcome {
        Ok(Some(output)) => {
            let found = trim(output.as_str()).to_owned();
            let expected = trim(test.output.as_str()).to_owned();
            if found == expected {
                if test.public {
                    let input = trim(test.input.as_str()).to_owned();
                    results.pub_pass(test.test_name.clone(), was_late, input, expected, found);
                } else {
                    results.pass(test.test_name.clone(), was_late);
                }
            } else {
                if test.public {
                    let input = trim(test.input.as_str()).to_owned();
                    results.pub_fail(test.test_name.clone(), input, expected, found);
                } else {
                    results.fail(test.test_name.clone());
                }
            }
        },
        Ok(None) => {
            if test.public {
                results.pub_time_out(
                    test.test_name.clone(),
                    test.input.clone(),
                    test.output.clone(),
                );
            } else {
                results.time_out(test.test_name.clone());
            }
        },
        Err(message) => {
            if test.public {
                results.pub_err(
                    test.test_name.clone(),
                    test.input.clone(),
                    test.output.clone(),
                    message.clone(),
                );
            } else {
                results.err(test.test_name.clone());
            }
        },
    }
}

/// Grades a task from the outcomes of its test runs, given in test order.
pub fn grade_task(
    tests: &Vec<Test>,
    outcomes: &Vec<Result<Option<String>, String>>,
    was_late: bool,
) -> (results: SubmissionResponse)
    requires
        outcomes.len() == tests.len(),
    ensures
        results@ == verdicts(tests@, outcomes@, was_late),
        results@.len() == tests.len(),
{
    let mut results = SubmissionResponse::default();
    let mut i: usize = 0;
    while i < tests.len()
        invariant
            i <= tests.len(),
            outcomes.len() == tests.len(),
            results@ == verdicts(tests@, outcomes@, was_late).take(i as int),
        decreases tests.len() - i,
    {
        record_outcome(&mut results, &tests[i], &outcomes[i], was_late);
        proof {
            let all = verdicts(tests@, outcomes@, was_late);
            assert(all.take(i + 1) =~= all.take(i as int).push(all[i as int]));
        }
        i = i + 1;
    }
    assert(verdicts(tests@, outcomes@, was_late).take(i as int) =~= verdicts(
        tests@,
        outcomes@,
        was_late,
    ));
    results
}

/// The message of a job whose language has no recipe.
pub const LANGUAGE_NOT_SUPPORTED: &'static str = "Language not supported";

/// The table after a grading job ended: with the results and their grade in
/// the row of the user's task where the job produced results, with the error
/// in that row where it failed.
pub open spec fn finished(
    rows: Seq<TaskGradeView>,
    user_id: i32,
    task_id: i32,
    outcome: Result<(Seq<u8>, Seq<TestView>), Seq<char>>,
) -> Seq<TaskGradeView> {
    match outcome {
        Ok((json_results, results)) => with_grade(
            rows,
            user_id,
            task_id,
            json_results,
            grade_of(results),
        ),
        Err(error) => with_error(rows, user_id, task_id, error),
    }
}

/// Writes down how a grading job ended. `outcome` holds the results and
/// their serialised form, or the reason why there are none.
pub fn finish_job(
    table: &mut GradeTable,
    user_id: i32,
    task_id: i32,
    outcome: Result<(Vec<u8>, SubmissionResponse), String>,
)
    ensures
        final(table)@ == finished(
            old(table)@,
            user_id,
            task_id,
            match outcome {
                Ok((json_results, results)) => Ok((json_results@, results@)),
                Err(error) => Err(error@),
            },
        ),
{
    match outcome {
        Ok((json_results, results)) => {
            let grade = results.score();
            let _ = container_add_task_grade(table, user_id, task_id, json_results, grade);
        },
        Err(error) => {
            container_add_task_error(table, user_id, task_id, error);
        },
    }
}

/// The directory under which every job has its workspace.
pub const WORKDIR_ROOT: &'static str = "/tmp/securegrade/";

/// The workspace of a job: below the root, named by the user and the task.
pub open spec fn workdir_of(user_id: i32, task_id: i32) -> Seq<char> {
    WORKDIR_ROOT@ + decimal_text(user_id as int) + seq!['-'] + decimal_text(task_id as int)
}

/// The path of the workspace of a job.
pub fn workdir(user_id: i32, task_id: i32) -> (path: String)
    ensures
        path@ == workdir_of(user_id, task_id),
{
    proof {
        reveal_strlit("-");
        assert("-"@ =~= seq!['-']);
    }
    let path = WORKDIR_ROOT.to_owned().concat(i32_text(user_id).as_str()).concat("-").concat(
        i32_text(task_id).as_str(),
    );
    assert(path@ =~= workdir_of(user_id, task_id));
    path
}

/// Jobs of different users or for different tasks never share a workspace.
pub proof fn lemma_workdirs_do_not_collide(user_id: i32, task_id: i32, other_user: i32, other_task: i32)
    requires
        workdir_of(user_id, task_id) == workdir_of(other_user, other_task),
    ensures
        user_id == other_user,
        task_id == other_task,
{
    let root = WORKDIR_ROOT@;
    let a1 = decimal_text(user_id as int);
    let b1 = decimal_text(task_id as int);
    let a2 = decimal_text(other_user as int);
    let b2 = decimal_text(other_task as int);
    let x1 = a1 + seq!['-'] + b1;
    let x2 = a2 + seq!['-'] + b2;
    assert(workdir_of(user_id, task_id).skip(root.len() as int) =~= x1);
    assert(workdir_of(other_user, other_task).skip(root.len() as int) =~= x2);
    assert(x1 == x2);
    lemma_decimal_text_shape(user_id as int);
    lemma_decimal_text_shape(other_user as int);
    assert(digit_value('-') is None);
    if a1.len() < a2.len() {
        assert(x1[a1.len() as int] == '-');
        assert(x2[a1.len() as int] == a2[a1.len() as int]);
    } else if a2.len() < a1.len() {
        assert(x2[a2.len() as int] == '-');
        assert(x1[a2.len() as int] == a1[a2.len() as int]);
    } else {
        assert(a1 =~= x1.take(a1.len() as int));
        assert(a2 =~= x2.take(a1.len() as int));
        assert(b1 =~= x1.skip(a1.len() as int + 1));
        assert(b2 =~= x2.skip(a1.len() as int + 1));
        lemma_decimal_text_injective(user_id, other_user);
        lemma_decimal_text_injective(task_id, other_task);
    }
}

/// The name under which the archive of a task goes into a download.
pub open spec fn archive_name_of(task_id: i32) -> Seq<char> {
    "Task"@ + decimal_text(task_id as int) + ".zip"@
}

/// The file name of the archive of a task in a download.
pub fn archive_name(task_id: i32) -> (name: String)
    ensures
        name@ == archive_name_of(task_id),
{
    "Task".to_owned().concat(i32_text(task_id).as_str()).concat(".zip")
}

} // verus!
