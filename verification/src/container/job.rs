//! One grading job, step by step: which recipe it needs, when its workspace
//! is set up and removed, when its image is built, and how its tests are run
//! one after the other.

use crate::container::image::{outcome_view, run_outcome, Image, ImageBuilder, RunOutput};
use crate::container::{
    get_container_for_language, record_outcome, verdict, workdir, workdir_of,
    LANGUAGE_NOT_SUPPORTED,
};
use crate::database::assignment::Test;
use crate::endpoints::{names_of, supported_languages};
use crate::model::submission_response::{SubmissionResponse, TestView};
use crate::text::trimmed;
use vstd::prelude::*;

verus! {

/// The message of a job that was handed an event it does not wait for.
pub const OUT_OF_TURN: &'static str = "Out of turn";

/// Whose job it is.
#[derive(Clone, Copy, Debug, PartialEq, Eq, Structural)]
pub struct Job {
    pub user_id: i32,
    pub task_id: i32,
    pub was_late: bool,
}

/// Where a job stands.
#[derive(Debug)]
pub enum JobStage {
    /// Nothing was done yet.
    Start,
    /// The recipes are being listed and the tests of the task are being read.
    Surveying { job: Job, lang: String },
    /// The workspace is being set up.
    Preparing { job: Job, tests: Vec<Test> },
    /// The image is being built from the workspace.
    Building { job: Job, tests: Vec<Test> },
    /// The workspace is being removed.
    Clearing { job: Job, tests: Vec<Test>, built: Result<Image, String> },
    /// The tests are being run in the image; `results` holds the entries of
    /// the tests that have been run.
    Running { job: Job, image: Image, tests: Vec<Test>, results: SubmissionResponse },
    /// The job has ended.
    Done,
}

/// What happened since the last step.
#[derive(Debug)]
pub enum JobEvent {
    /// The job was taken from the queue.
    Begin { job: Job, lang: String },
    /// The entries of the recipe directory, by name where they have one, and
    /// the tests of the task or the reason why they could not be read.
    Surveyed { recipes: Vec<Option<String>>, tests: Result<Vec<Test>, String> },
    /// The workspace is set up.
    Prepared,
    /// The build tool has ended and left this on its two streams.
    Built { stdout: String, stderr: String },
    /// The workspace is removed.
    Cleared,
    /// A run of the image has ended.
    Ran(RunOutput),
    /// What was asked for could not be done.
    Failed(String),
}

/// What has to be done next.
#[derive(Debug)]
pub enum JobAction {
    /// List the recipe directory and read the tests of the task.
    Survey { task_id: i32 },
    /// Wipe and create the workspace, copy the recipe of the language into
    /// it, store the archive in it and unpack the archive.
    Prepare { workdir: String, recipe: String },
    /// Build an image from the directory, quietly.
    Build { directory: String },
    /// Remove the workspace.
    Clear { workdir: String },
    /// Run the image once with the input on its standard input, for no longer
    /// than the time limit in seconds, if there is one.
    Run { image_id: String, input: String, timeout: Option<u64> },
    /// End the job with its results, or with the reason why it has none.
    Finish(Result<SubmissionResponse, String>),
}

/// What came of a build, by the text of the image reference or of the
/// failure.
pub open spec fn built_view(built: Result<Image, String>) -> Result<Seq<char>, Seq<char>> {
    match built {
        Ok(image) => Ok(image.spec_image_id()),
        Err(message) => Err(message@),
    }
}

/// What the build tool's output means: anything on the error stream is a
/// failure with that text trimmed, else the trimmed output names the image.
pub open spec fn build_of(stdout: Seq<char>, stderr: Seq<char>) -> Result<Seq<char>, Seq<char>> {
    if stderr.len() > 0 {
        Err(trimmed(stderr))
    } else {
        Ok(trimmed(stdout))
    }
}

/// How a job ends, by the entries of its results or the text of its failure.
pub open spec fn finish_view(outcome: Result<SubmissionResponse, String>) -> Result<
    Seq<TestView>,
    Seq<char>,
> {
    match outcome {
        Ok(results) => Ok(results@),
        Err(message) => Err(message@),
    }
}

/// The action ends the job with this failure.
pub open spec fn fails_with(action: JobAction, message: Seq<char>) -> bool {
    action is Finish && finish_view(action->Finish_0) == Err::<Seq<TestView>, Seq<char>>(message)
}

/// The action removes the workspace of the job.
pub open spec fn clears(action: JobAction, job: Job) -> bool {
    action is Clear && action->Clear_workdir@ == workdir_of(job.user_id, job.task_id)
}

/// The action runs the test at position `at`.
pub open spec fn runs(action: JobAction, image: Image, tests: Seq<Test>, at: int) -> bool {
    &&& action is Run
    &&& action->Run_image_id@ == image.spec_image_id()
    &&& action->Run_input == tests[at].input
    &&& action->Run_timeout == tests[at].timeout
}

/// The position of the first entry named `lang` among the names, if any.
pub open spec fn recipe_at(names: Seq<String>, lang: Seq<char>, at: int) -> bool {
    &&& 0 <= at < names.len()
    &&& names[at]@ == lang
    &&& forall|j: int| 0 <= j < at ==> (#[trigger] names[j])@ != lang
}

/// Whether a language has a recipe among the names.
pub open spec fn has_recipe(names: Seq<String>, lang: Seq<char>) -> bool {
    exists|at: int| recipe_at(names, lang, at)
}

/// The stage that runs the tests begins with the first test, or ends the
/// job at once where the task has no test.
pub open spec fn starts_running(
    job: Job,
    image: Image,
    tests: Seq<Test>,
    next: (JobStage, JobAction),
) -> bool {
    if tests.len() == 0 {
        next.0 is Done && next.1 is Finish && finish_view(next.1->Finish_0) == Ok::<
            Seq<TestView>,
            Seq<char>,
        >(Seq::empty())
    } else {
        &&& next.0 is Running
        &&& next.0->Running_job == job
        &&& next.0->Running_image.spec_image_id() == image.spec_image_id()
        &&& next.0->Running_tests@ == tests
        &&& next.0->Running_results@ == Seq::<TestView>::empty()
        &&& runs(next.1, image, tests, 0)
    }
}

/// One more test has been run: its entry is appended, and the job goes on
/// with the next test or ends with the results where that was the last one.
pub open spec fn goes_on(
    job: Job,
    image: Image,
    tests: Seq<Test>,
    results: Seq<TestView>,
    outcome: Result<Option<String>, String>,
    next: (JobStage, JobAction),
) -> bool {
    let at = results.len() as int;
    let after = results.push(verdict(tests[at], outcome, job.was_late));
    if at + 1 == tests.len() {
        next.0 is Done && next.1 is Finish && finish_view(next.1->Finish_0) == Ok::<
            Seq<TestView>,
            Seq<char>,
        >(after)
    } else {
        &&& next.0 is Running
        &&& next.0->Running_job == job
        &&& next.0->Running_image.spec_image_id() == image.spec_image_id()
        &&& next.0->Running_tests@ == tests
        &&& next.0->Running_results@ == after
        &&& runs(next.1, image, tests, at + 1)
    }
}

/// Whether `next` is the stage and the action that follow on `stage` and
/// `event`.
///
/// A job surveys first. Without a recipe for its language it ends as not
/// supported, before anything is set up; without tests to read it ends with
/// the reason. Then the workspace is set up, the image is built from it,
/// and the workspace is removed whatever came of the build. A failed build
/// ends the job with the build's error text. Then the tests are run in
/// their order, one run per test, and the job ends with one entry per test.
pub open spec fn follows(stage: JobStage, event: JobEvent, next: (JobStage, JobAction)) -> bool {
    match (stage, event) {
        (JobStage::Start, JobEvent::Begin { job, lang }) => {
            &&& next.0 is Surveying
            &&& next.0->Surveying_job == job
            &&& next.0->Surveying_lang == lang
            &&& next.1 is Survey
            &&& next.1->Survey_task_id == job.task_id
        },
        (JobStage::Surveying { job, lang }, JobEvent::Surveyed { recipes, tests }) => {
            if !has_recipe(names_of(recipes@), lang@) {
                next.0 is Done && fails_with(next.1, LANGUAGE_NOT_SUPPORTED@)
            } else {
                match tests {
                    Err(message) => next.0 is Done && fails_with(next.1, message@),
                    Ok(tests) => {
                        &&& next.0 is Preparing
                        &&& next.0->Preparing_job == job
                        &&& next.0->Preparing_tests == tests
                        &&& next.1 is Prepare
                        &&& next.1->Prepare_workdir@ == workdir_of(job.user_id, job.task_id)
                        &&& next.1->Prepare_recipe@ == lang@
                    },
                }
            }
        },
        (JobStage::Surveying { .. }, JobEvent::Failed(message)) => {
            next.0 is Done && fails_with(next.1, message@)
        },
        (JobStage::Preparing { job, tests }, JobEvent::Prepared) => {
            &&& next.0 is Building
            &&& next.0->Building_job == job
            &&& next.0->Building_tests == tests
            &&& next.1 is Build
            &&& next.1->Build_directory@ == workdir_of(job.user_id, job.task_id)
        },
        (JobStage::Preparing { job, tests }, JobEvent::Failed(message)) => {
            &&& next.0 is Clearing
            &&& next.0->Clearing_job == job
            &&& next.0->Clearing_tests == tests
            &&& built_view(next.0->Clearing_built) == Err::<Seq<char>, Seq<char>>(message@)
            &&& clears(next.1, job)
        },
        (JobStage::Building { job, tests }, JobEvent::Built { stdout, stderr }) => {
            &&& next.0 is Clearing
            &&& next.0->Clearing_job == job
            &&& next.0->Clearing_tests == tests
            &&& built_view(next.0->Clearing_built) == build_of(stdout@, stderr@)
            &&& clears(next.1, job)
        },
        (JobStage::Building { job, tests }, JobEvent::Failed(message)) => {
            &&& next.0 is Clearing
            &&& next.0->Clearing_job == job
            &&& next.0->Clearing_tests == tests
            &&& built_view(next.0->Clearing_built) == Err::<Seq<char>, Seq<char>>(message@)
            &&& clears(next.1, job)
        },
        (JobStage::Clearing { job, tests, built }, JobEvent::Cleared) => {
            match built {
                Err(message) => next.0 is Done && fails_with(next.1, message@),
                Ok(image) => starts_running(job, image, tests@, next),
            }
        },
        (JobStage::Running { job, image, tests, results }, JobEvent::Ran(run)) => {
            if results@.len() >= tests@.len() {
                next.0 is Done && next.1 is Finish && finish_view(next.1->Finish_0) == Ok::<
                    Seq<TestView>,
                    Seq<char>,
                >(results@)
            } else {
                exists|outcome: Result<Option<String>, String>|
                    outcome_view(outcome) == run_outcome(run) && goes_on(
                        job,
                        image,
                        tests@,
                        results@,
                        outcome,
                        next,
                    )
            }
        },
        (JobStage::Running { job, image, tests, results }, JobEvent::Failed(message)) => {
            if results@.len() >= tests@.len() {
                next.0 is Done && next.1 is Finish && finish_view(next.1->Finish_0) == Ok::<
                    Seq<TestView>,
                    Seq<char>,
                >(results@)
            } else {
                goes_on(job, image, tests@, results@, Err(message), next)
            }
        },
        _ => next.0 is Done && fails_with(next.1, OUT_OF_TURN@),
    }
}

/// The stage can be reached: while tests are being run, at least one of
/// them is still to be run.
pub open spec fn in_order(stage: JobStage) -> bool {
    match stage {
        JobStage::Running { tests, results, .. } => results@.len() < tests@.len(),
        _ => true,
    }
}

/// The tests of the task that a stage holds.
pub open spec fn tests_of(stage: JobStage) -> Seq<Test> {
    match stage {
        JobStage::Preparing { tests, .. } => tests@,
        JobStage::Building { tests, .. } => tests@,
        JobStage::Clearing { tests, .. } => tests@,
        JobStage::Running { tests, .. } => tests@,
        _ => Seq::empty(),
    }
}

/// A job that ends with results has one entry for every test of its task;
/// and a job never comes to run tests with none left to run.
pub proof fn lemma_results_are_complete(stage: JobStage, event: JobEvent, next: (JobStage, JobAction))
    requires
        in_order(stage),
        follows(stage, event, next),
    ensures
        in_order(next.0),
        next.1 is Finish && next.1->Finish_0 is Ok ==> next.1->Finish_0->Ok_0@.len() == tests_of(
            stage,
        ).len(),
        next.0 is Running ==> tests_of(next.0) == tests_of(stage),
{
}

/// The steps of a job cannot be skipped: a workspace is set up only for a
/// language that has a recipe, an image is built only in a workspace that
/// was set up, a test is run only once the workspace is removed, and a job
/// ends exactly when it answers.
pub proof fn lemma_job_steps_in_order(stage: JobStage, event: JobEvent, next: (JobStage, JobAction))
    requires
        follows(stage, event, next),
    ensures
        next.1 is Prepare ==> stage is Surveying && event is Surveyed && has_recipe(
            names_of(event->Surveyed_recipes@),
            stage->Surveying_lang@,
        ),
        next.1 is Build ==> stage is Preparing && event is Prepared,
        next.1 is Clear ==> stage is Preparing || stage is Building,
        next.1 is Run ==> (stage is Clearing && event is Cleared) || stage is Running,
        next.1 is Finish <==> next.0 is Done,
{
}

/// Takes one step of a grading job.
pub fn run_container(stage: JobStage, event: JobEvent) -> (next: (JobStage, JobAction))
    ensures
        follows(stage, event, next),
{
    match (stage, event) {
        (JobStage::Start, JobEvent::Begin { job, lang }) => (
            JobStage::Surveying { job, lang },
            JobAction::Survey { task_id: job.task_id },
        ),
        (JobStage::Surveying { job, lang }, JobEvent::Surveyed { recipes, tests }) => {
            let names = supported_languages(recipes);
            match get_container_for_language(&names, lang.as_str()) {
                None => {
                    assert(!has_recipe(names@, lang@)) by {
                        if has_recipe(names@, lang@) {
                            let at = choose|at: int| recipe_at(names@, lang@, at);
                            assert(names@[at]@ == lang@);
                        }
                    }
                    (job_done(), JobAction::Finish(Err(LANGUAGE_NOT_SUPPORTED.to_owned())))
                },
                Some(at) => {
                    assert(recipe_at(names@, lang@, at as int));
                    match tests {
                        Err(message) => (job_done(), JobAction::Finish(Err(message))),
                        Ok(tests) => (
                            JobStage::Preparing { job, tests },
                            JobAction::Prepare {
                                workdir: workdir(job.user_id, job.task_id),
                                recipe: names[at].clone(),
                            },
                        ),
                    }
                },
            }
        },
        (JobStage::Surveying { .. }, JobEvent::Failed(message)) => (
            job_done(),
            JobAction::Finish(Err(message)),
        ),
        (JobStage::Preparing { job, tests }, JobEvent::Prepared) => (
            JobStage::Building { job, tests },
            JobAction::Build { directory: workdir(job.user_id, job.task_id) },
        ),
        (JobStage::Preparing { job, tests }, JobEvent::Failed(message)) => (
            JobStage::Clearing { job, tests, built: Err(message) },
            JobAction::Clear { workdir: workdir(job.user_id, job.task_id) },
        ),
        (JobStage::Building { job, tests }, JobEvent::Built { stdout, stderr }) => {
            let builder = ImageBuilder::new(workdir(job.user_id, job.task_id));
            let built = builder.build(stdout.as_str(), stderr.as_str());
            (
                JobStage::Clearing { job, tests, built },
                JobAction::Clear { workdir: workdir(job.user_id, job.task_id) },
            )
        },
        (JobStage::Building { job, tests }, JobEvent::Failed(message)) => (
            JobStage::Clearing { job, tests, built: Err(message) },
            JobAction::Clear { workdir: workdir(job.user_id, job.task_id) },
        ),
        (JobStage::Clearing { job, tests, built }, JobEvent::Cleared) => match built {
            Err(message) => (job_done(), JobAction::Finish(Err(message))),
            Ok(image) => {
                if tests.len() == 0 {
                    (job_done(), JobAction::Finish(Ok(SubmissionResponse::default())))
                } else {
                    let action = run_test(&image, &tests, 0);
                    (
                        JobStage::Running {
                            job,
                            image,
                            tests,
                            results: SubmissionResponse::default(),
                        },
                        action,
                    )
                }
            },
        },
        (JobStage::Running { job, image, tests, results }, JobEvent::Ran(run)) => {
            if results.len() >= tests.len() {
                return (job_done(), JobAction::Finish(Ok(results)));
            }
            let outcome = image.exec(run);
            let next = go_on(job, image, tests, results, &outcome);
            assert(outcome_view(outcome) == run_outcome(run));
            next
        },
        (JobStage::Running { job, image, tests, results }, JobEvent::Failed(message)) => {
            if results.len() >= tests.len() {
                return (job_done(), JobAction::Finish(Ok(results)));
            }
            let outcome: Result<Option<String>, String> = Err(message);
            go_on(job, image, tests, results, &outcome)
        },
        _ => (job_done(), JobAction::Finish(Err(OUT_OF_TURN.to_owned()))),
    }
}

fn run_test(image: &Image, tests: &Vec<Test>, at: usize) -> (action: JobAction)
    requires
        at < tests.len(),
    ensures
        runs(action, *image, tests@, at as int),
{
    JobAction::Run {
        image_id: image.image_id().clone(),
        input: tests[at].input.clone(),
        timeout: tests[at].timeout,
    }
}

fn go_on(
    job: Job,
    image: Image,
    tests: Vec<Test>,
    results: SubmissionResponse,
    outcome: &Result<Option<String>, String>,
) -> (next: (JobStage, JobAction))
    requires
        results@.len() < tests@.len(),
    ensures
        goes_on(job, image, tests@, results@, *outcome, next),
{
    let at = results.len();
    assert(at < tests.len());
    let mut results = results;
    record_outcome(&mut results, &tests[at], outcome, job.was_late);
    if at + 1 == tests.len() {
        (job_done(), JobAction::Finish(Ok(results)))
    } else {
        let action = run_test(&image, &tests, at + 1);
        (JobStage::Running { job, image, tests, results }, action)
    }
}

fn job_done() -> (stage: JobStage)
    ensures
        stage is Done,
{
    JobStage::Done
}

} // verus!
