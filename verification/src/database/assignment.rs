//! Assignments, their tasks and tests, and the table of task grades.

use crate::encoding::{base64_bytes, base64_decode, base64_encode, base64_of};
use crate::model::class_info::AssignmentInfo;
use crate::model::request::Task as ReqTask;
use crate::model::request::Test as ReqTest;
use crate::score::Ratio;
use crate::text::{opt_text, string_from_utf8};
use crate::time::{format_timestamp, parse_timestamp, timestamp_in, timestamp_text, Timestamp};
use vstd::prelude::*;
use vstd::utf8::{decode_utf8, valid_utf8};

pub mod operations;

verus! {

/// One test of a task, as the grader runs it.
#[derive(Debug)]
pub struct Test {
    pub test_name: Option<String>,
    pub public: bool,
    pub output: String,
    pub input: String,
    /// The wall-clock limit of one run, in seconds.
    pub timeout: Option<u64>,
}

/// Why the text of a test could not be had.
#[derive(Clone, Copy, Debug, PartialEq, Eq, Structural)]
pub enum TextError {
    /// Neither a file nor a text was given.
    Missing,
    /// The file is not well-formed base64.
    Base64,
    /// The file does not hold UTF-8.
    Utf8,
}

/// Why an assignment could not be stored.
#[derive(Clone, Copy, Debug, PartialEq, Eq, Structural)]
pub enum AssignmentError {
    /// The deadline does not denote an instant.
    Deadline,
    /// The supplementary material of a task is not well-formed base64.
    Material,
    /// The input of a test could not be had.
    Input(TextError),
    /// The expected output of a test could not be had.
    Output(TextError),
}

/// A test as it goes into the store.
#[derive(Debug)]
pub struct NewTest {
    pub test_name: Option<String>,
    pub input: String,
    pub output: String,
    pub public: bool,
    pub timeout: Option<i32>,
}

pub struct NewTestView {
    pub test_name: Option<Seq<char>>,
    pub input: Seq<char>,
    pub output: Seq<char>,
    pub public: bool,
    pub timeout: Option<i32>,
}

impl View for NewTest {
    type V = NewTestView;

    open spec fn view(&self) -> NewTestView {
        NewTestView {
            test_name: opt_text(self.test_name),
            input: self.input@,
            output: self.output@,
            public: self.public,
            timeout: self.timeout,
        }
    }
}

/// A task as it goes into the store, with its place among the tasks of the
/// assignment.
#[derive(Debug)]
pub struct NewTask {
    pub task_description: String,
    pub allow_editor: bool,
    pub placement: usize,
    pub material: Option<Vec<u8>>,
    pub material_filename: Option<String>,
    pub tests: Vec<NewTest>,
}

pub struct NewTaskView {
    pub task_description: Seq<char>,
    pub allow_editor: bool,
    pub placement: usize,
    pub material: Option<Seq<u8>>,
    pub material_filename: Option<Seq<char>>,
    pub tests: Seq<NewTestView>,
}

impl View for NewTask {
    type V = NewTaskView;

    open spec fn view(&self) -> NewTaskView {
        NewTaskView {
            task_description: self.task_description@,
            allow_editor: self.allow_editor,
            placement: self.placement,
            material: match self.material {
                Some(m) => Some(m@),
                None => None,
            },
            material_filename: opt_text(self.material_filename),
            tests: Seq::new(self.tests@.len(), |i: int| self.tests@[i]@),
        }
    }
}

/// Everything that storing an assignment writes.
#[derive(Debug)]
pub struct AssignmentRows {
    pub assignment_name: String,
    pub assignment_description: Option<String>,
    pub deadline: Timestamp,
    pub tasks: Vec<NewTask>,
}

pub struct AssignmentRowsView {
    pub assignment_name: Seq<char>,
    pub assignment_description: Option<Seq<char>>,
    pub deadline: Timestamp,
    pub tasks: Seq<NewTaskView>,
}

impl View for AssignmentRows {
    type V = AssignmentRowsView;

    open spec fn view(&self) -> AssignmentRowsView {
        AssignmentRowsView {
            assignment_name: self.assignment_name@,
            assignment_description: opt_text(self.assignment_description),
            deadline: self.deadline,
            tasks: Seq::new(self.tasks@.len(), |i: int| self.tasks@[i]@),
        }
    }
}

/// The text that a decoded file or a literal stands for.
///
/// `file` is `None` where no file was given, `Some(None)` where the file was
/// not well-formed base64, and `Some(Some(bytes))` where it decoded to
/// `bytes`. A file wins over a literal.
pub open spec fn text_of(file: Option<Option<Seq<u8>>>, literal: Option<Seq<char>>) -> Result<
    Seq<char>,
    TextError,
> {
    match file {
        Some(None) => Err(TextError::Base64),
        Some(Some(bytes)) => if valid_utf8(bytes) {
            Ok(decode_utf8(bytes))
        } else {
            Err(TextError::Utf8)
        },
        None => match literal {
            Some(text) => Ok(text),
            None => Err(TextError::Missing),
        },
    }
}

/// What decoding an optional base64 file gives.
pub open spec fn decoded_file(file_base64: Option<String>) -> Option<Option<Seq<u8>>> {
    match file_base64 {
        Some(text) => Some(base64_bytes(text@)),
        None => None,
    }
}

/// The stored form of a test, or the reason why it has none. The input is
/// looked at before the output.
pub open spec fn new_test_of(test: ReqTest, timeout: Option<i32>) -> Result<
    NewTestView,
    AssignmentError,
> {
    match text_of(decoded_file(test.input_file_base64), opt_text(test.input)) {
        Err(e) => Err(AssignmentError::Input(e)),
        Ok(input) => match text_of(decoded_file(test.output_file_base64), opt_text(test.output)) {
            Err(e) => Err(AssignmentError::Output(e)),
            Ok(output) => Ok(
                NewTestView {
                    test_name: opt_text(test.test_name),
                    input,
                    output,
                    public: test.is_public,
                    timeout,
                },
            ),
        },
    }
}

/// The stored forms of the tests of a task, in order, or the first reason
/// why one of them has none.
pub open spec fn new_tests_of(tests: Seq<ReqTest>, timeout: Option<i32>) -> Result<
    Seq<NewTestView>,
    AssignmentError,
>
    decreases tests.len(),
{
    if tests.len() == 0 {
        Ok(Seq::empty())
    } else {
        match new_tests_of(tests.drop_last(), timeout) {
            Err(e) => Err(e),
            Ok(front) => match new_test_of(tests.last(), timeout) {
                Err(e) => Err(e),
                Ok(test) => Ok(front.push(test)),
            },
        }
    }
}

/// The material of a task as bytes. With `strict`, material that is not
/// well-formed base64 is an error; without, it counts as no material.
pub open spec fn material_of(material_base64: Option<String>, strict: bool) -> Result<
    Option<Seq<u8>>,
    AssignmentError,
> {
    match material_base64 {
        None => Ok(None),
        Some(text) => match base64_bytes(text@) {
            Some(bytes) => Ok(Some(bytes)),
            None => if strict {
                Err(AssignmentError::Material)
            } else {
                Ok(None)
            },
        },
    }
}

/// The stored form of a task at a given place. The material is looked at
/// before the tests.
pub open spec fn new_task_of(task: ReqTask, placement: int, strict: bool) -> Result<
    NewTaskView,
    AssignmentError,
> {
    match material_of(task.material_base64, strict) {
        Err(e) => Err(e),
        Ok(material) => match new_tests_of(task.tests@, task.timeout) {
            Err(e) => Err(e),
            Ok(tests) => Ok(
                NewTaskView {
                    task_description: task.task_description@,
                    allow_editor: task.allow_editor,
                    placement: placement as usize,
                    material,
                    material_filename: opt_text(task.material_filename),
                    tests,
                },
            ),
        },
    }
}

/// The stored forms of the tasks of an assignment, each placed at its index,
/// or the first reason why one of them has none.
pub open spec fn new_tasks_of(tasks: Seq<ReqTask>, strict: bool) -> Result<
    Seq<NewTaskView>,
    AssignmentError,
>
    decreases tasks.len(),
{
    if tasks.len() == 0 {
        Ok(Seq::empty())
    } else {
        match new_tasks_of(tasks.drop_last(), strict) {
            Err(e) => Err(e),
            Ok(front) => match new_task_of(tasks.last(), tasks.len() - 1, strict) {
                Err(e) => Err(e),
                Ok(task) => Ok(front.push(task)),
            },
        }
    }
}

/// Everything that storing an assignment writes, or the first reason why it
/// cannot be stored. The deadline is looked at before the tasks.
pub open spec fn assignment_rows_of(
    assignment_name: Seq<char>,
    assignment_description: Option<Seq<char>>,
    deadline: Seq<char>,
    tasks: Seq<ReqTask>,
    strict: bool,
) -> Result<AssignmentRowsView, AssignmentError> {
    match timestamp_in(deadline) {
        None => Err(AssignmentError::Deadline),
        Some((secs, nanos)) => match new_tasks_of(tasks, strict) {
            Err(e) => Err(e),
            Ok(rows) => Ok(
                AssignmentRowsView {
                    assignment_name,
                    assignment_description,
                    deadline: Timestamp { secs, nanos },
                    tasks: rows,
                },
            ),
        },
    }
}

/// The view of a result whose success has a view.
pub open spec fn result_view<T: View, E>(r: Result<T, E>) -> Result<T::V, E> {
    match r {
        Ok(t) => Ok(t@),
        Err(e) => Err(e),
    }
}

/// The text of a test from a file that was already decoded, or from a
/// literal.
pub fn text_from(file: Option<Option<Vec<u8>>>, literal: &Option<String>) -> (text: Result<
    String,
    TextError,
>)
    ensures
        result_view(text) == text_of(
            match file {
                Some(Some(bytes)) => Some(Some(bytes@)),
                Some(None) => Some(None),
                None => None,
            },
            opt_text(*literal),
        ),
{
    match file {
        Some(None) => Err(TextError::Base64),
        Some(Some(bytes)) => match string_from_utf8(bytes) {
            Some(text) => Ok(text),
            None => Err(TextError::Utf8),
        },
        None => match literal {
            Some(text) => Ok(text.clone()),
            None => Err(TextError::Missing),
        },
    }
}

/// Decodes an optional base64 file.
fn decode_file(file_base64: &Option<String>) -> (file: Option<Option<Vec<u8>>>)
    ensures
        match file {
            Some(Some(bytes)) => decoded_file(*file_base64) == Some(Some(bytes@)),
            Some(None) => decoded_file(*file_base64) == Some(None::<Seq<u8>>),
            None => decoded_file(*file_base64) is None,
        },
{
    match file_base64 {
        Some(text) => match base64_decode(text.as_str()) {
            Ok(bytes) => Some(Some(bytes)),
            Err(_) => Some(None),
        },
        None => None,
    }
}

/// The stored form of one test.
pub fn new_test(test: &ReqTest, timeout: Option<i32>) -> (row: Result<NewTest, AssignmentError>)
    ensures
        result_view(row) == new_test_of(*test, timeout),
{
    let input = match text_from(decode_file(&test.input_file_base64), &test.input) {
        Ok(text) => text,
        Err(e) => {
            return Err(AssignmentError::Input(e));
        },
    };
    let output = match text_from(decode_file(&test.output_file_base64), &test.output) {
        Ok(text) => text,
        Err(e) => {
            return Err(AssignmentError::Output(e));
        },
    };
    Ok(
        NewTest {
            test_name: test.test_name.clone(),
            input,
            output,
            public: test.is_public,
            timeout,
        },
    )
}

/// The views of a list of stored tests.
pub open spec fn new_test_views(tests: Seq<NewTest>) -> Seq<NewTestView> {
    Seq::new(tests.len(), |i: int| tests[i]@)
}

/// The views of a list of stored tasks.
pub open spec fn new_task_views(tasks: Seq<NewTask>) -> Seq<NewTaskView> {
    Seq::new(tasks.len(), |i: int| tasks[i]@)
}

/// The stored forms of the tests of a task.
pub fn new_tests(tests: &Vec<ReqTest>, timeout: Option<i32>) -> (rows: Result<
    Vec<NewTest>,
    AssignmentError,
>)
    ensures
        match rows {
            Ok(r) => new_tests_of(tests@, timeout) == Ok::<Seq<NewTestView>, AssignmentError>(
                new_test_views(r@),
            ),
            Err(e) => new_tests_of(tests@, timeout) == Err::<Seq<NewTestView>, AssignmentError>(e),
        },
{
    let mut rows: Vec<NewTest> = Vec::new();
    let mut i: usize = 0;
    assert(tests@.take(0) =~= Seq::<ReqTest>::empty());
    assert(new_test_views(rows@) =~= Seq::<NewTestView>::empty());
    while i < tests.len()
        invariant
            i <= tests.len(),
            new_tests_of(tests@.take(i as int), timeout) == Ok::<
                Seq<NewTestView>,
                AssignmentError,
            >(new_test_views(rows@)),
        decreases tests.len() - i,
    {
        proof {
            assert(tests@.take(i + 1).drop_last() =~= tests@.take(i as int));
            assert(tests@.take(i + 1).last() == tests@[i as int]);
        }
        match new_test(&tests[i], timeout) {
            Ok(row) => {
                let ghost before = rows@;
                rows.push(row);
                assert(new_test_views(rows@) =~= new_test_views(before).push(row@));
            },
            Err(e) => {
                proof {
                    lemma_new_tests_fail(tests@, timeout, i as int);
                }
                return Err(e);
            },
        }
        i = i + 1;
    }
    assert(tests@.take(i as int) =~= tests@);
    Ok(rows)
}

/// Once a prefix of the tests fails, the whole list fails in the same way.
proof fn lemma_new_tests_fail(tests: Seq<ReqTest>, timeout: Option<i32>, i: int)
    requires
        0 <= i < tests.len(),
        new_tests_of(tests.take(i + 1), timeout) is Err,
    ensures
        new_tests_of(tests, timeout) == new_tests_of(tests.take(i + 1), timeout),
    decreases tests.len(),
{
    if i + 1 == tests.len() {
        assert(tests.take(i + 1) =~= tests);
    } else {
        assert(tests.drop_last().take(i + 1) =~= tests.take(i + 1));
        lemma_new_tests_fail(tests.drop_last(), timeout, i);
    }
}

/// Once a prefix of the tasks fails, the whole list fails in the same way.
proof fn lemma_new_tasks_fail(tasks: Seq<ReqTask>, strict: bool, i: int)
    requires
        0 <= i < tasks.len(),
        new_tasks_of(tasks.take(i + 1), strict) is Err,
    ensures
        new_tasks_of(tasks, strict) == new_tasks_of(tasks.take(i + 1), strict),
    decreases tasks.len(),
{
    if i + 1 == tasks.len() {
        assert(tasks.take(i + 1) =~= tasks);
    } else {
        assert(tasks.drop_last().take(i + 1) =~= tasks.take(i + 1));
        lemma_new_tasks_fail(tasks.drop_last(), strict, i);
    }
}

/// The material of a task as bytes.
fn material(material_base64: &Option<String>, strict: bool) -> (bytes: Result<
    Option<Vec<u8>>,
    AssignmentError,
>)
    ensures
        match bytes {
            Ok(Some(b)) => material_of(*material_base64, strict) == Ok::<
                Option<Seq<u8>>,
                AssignmentError,
            >(Some(b@)),
            Ok(None) => material_of(*material_base64, strict) == Ok::<
                Option<Seq<u8>>,
                AssignmentError,
            >(None),
            Err(e) => material_of(*material_base64, strict) == Err::<
                Option<Seq<u8>>,
                AssignmentError,
            >(e),
        },
{
    match material_base64 {
        None => Ok(None),
        Some(text) => match base64_decode(text.as_str()) {
            Ok(bytes) => Ok(Some(bytes)),
            Err(_) => if strict {
                Err(AssignmentError::Material)
            } else {
                Ok(None)
            },
        },
    }
}

/// The stored form of one task at the given place.
pub fn new_task(task: &ReqTask, placement: usize, strict: bool) -> (row: Result<
    NewTask,
    AssignmentError,
>)
    ensures
        result_view(row) == new_task_of(*task, placement as int, strict),
{
    let material = match material(&task.material_base64, strict) {
        Ok(m) => m,
        Err(e) => {
            return Err(e);
        },
    };
    let tests = match new_tests(&task.tests, task.timeout) {
        Ok(t) => t,
        Err(e) => {
            return Err(e);
        },
    };
    let row = NewTask {
        task_description: task.task_description.clone(),
        allow_editor: task.allow_editor,
        placement,
        material,
        material_filename: task.material_filename.clone(),
        tests,
    };
    assert(row@.tests =~= new_test_views(tests@));
    Ok(row)
}

/// The stored forms of the tasks of an assignment, each placed at its index.
pub fn new_tasks(tasks: &Vec<ReqTask>, strict: bool) -> (rows: Result<Vec<NewTask>, AssignmentError>)
    ensures
        match rows {
            Ok(r) => new_tasks_of(tasks@, strict) == Ok::<Seq<NewTaskView>, AssignmentError>(
                new_task_views(r@),
            ),
            Err(e) => new_tasks_of(tasks@, strict) == Err::<Seq<NewTaskView>, AssignmentError>(e),
        },
{
    let mut rows: Vec<NewTask> = Vec::new();
    let mut i: usize = 0;
    assert(tasks@.take(0) =~= Seq::<ReqTask>::empty());
    assert(new_task_views(rows@) =~= Seq::<NewTaskView>::empty());
    while i < tasks.len()
        invariant
            i <= tasks.len(),
            new_tasks_of(tasks@.take(i as int), strict) == Ok::<
                Seq<NewTaskView>,
                AssignmentError,
            >(new_task_views(rows@)),
        decreases tasks.len() - i,
    {
        proof {
            assert(tasks@.take(i + 1).drop_last() =~= tasks@.take(i as int));
            assert(tasks@.take(i + 1).last() == tasks@[i as int]);
        }
        match new_task(&tasks[i], i, strict) {
            Ok(row) => {
                let ghost before = rows@;
                rows.push(row);
                assert(new_task_views(rows@) =~= new_task_views(before).push(row@));
            },
            Err(e) => {
                proof {
                    lemma_new_tasks_fail(tasks@, strict, i as int);
                }
                return Err(e);
            },
        }
        i = i + 1;
    }
    assert(tasks@.take(i as int) =~= tasks@);
    Ok(rows)
}

/// Puts the rows of an assignment together from a deadline that was already
/// read.
pub fn assignment_rows(
    assignment_name: String,
    assignment_description: Option<String>,
    deadline: Option<Timestamp>,
    tasks: &Vec<ReqTask>,
    strict: bool,
) -> (rows: Result<AssignmentRows, AssignmentError>)
    ensures
        result_view(rows) == match deadline {
            None => Err::<AssignmentRowsView, AssignmentError>(AssignmentError::Deadline),
            Some(instant) => match new_tasks_of(tasks@, strict) {
                Err(e) => Err(e),
                Ok(t) => Ok(
                    AssignmentRowsView {
                        assignment_name: assignment_name@,
                        assignment_description: opt_text(assignment_description),
                        deadline: instant,
                        tasks: t,
                    },
                ),
            },
        },
{
    let instant = match deadline {
        Some(instant) => instant,
        None => {
            return Err(AssignmentError::Deadline);
        },
    };
    let tasks = match new_tasks(tasks, strict) {
        Ok(t) => t,
        Err(e) => {
            return Err(e);
        },
    };
    let rows = AssignmentRows { assignment_name, assignment_description, deadline: instant, tasks };
    assert(rows@.tasks =~= new_task_views(tasks@));
    Ok(rows)
}

/// Works out what storing a new assignment writes: the assignment with its
/// deadline, each task at the place it has in `tasks`, and each test with the
/// input and output it stands for. Material that is not well-formed base64
/// counts as no material.
pub fn add_assignment(
    assignment_name: String,
    assignment_description: Option<String>,
    deadline: &str,
    tasks: &Vec<ReqTask>,
) -> (rows: Result<AssignmentRows, AssignmentError>)
    ensures
        result_view(rows) == assignment_rows_of(
            assignment_name@,
            opt_text(assignment_description),
            deadline@,
            tasks@,
            false,
        ),
{
    let instant = match parse_timestamp(deadline) {
        Ok(t) => Some(t),
        Err(_) => None,
    };
    assignment_rows(assignment_name, assignment_description, instant, tasks, false)
}

/// Works out what replacing an assignment writes. As `add_assignment`, but
/// material that is not well-formed base64 is an error.
pub fn update_assignment(
    assignment_name: String,
    assignment_description: Option<String>,
    deadline: &str,
    tasks: &Vec<ReqTask>,
) -> (rows: Result<AssignmentRows, AssignmentError>)
    ensures
        result_view(rows) == assignment_rows_of(
            assignment_name@,
            opt_text(assignment_description),
            deadline@,
            tasks@,
            true,
        ),
{
    let instant = match parse_timestamp(deadline) {
        Ok(t) => Some(t),
        Err(_) => None,
    };
    assignment_rows(assignment_name, assignment_description, instant, tasks, true)
}

/// How the tests of a task reach the submission.
#[derive(Clone, Copy, Debug, PartialEq, Eq, Structural)]
pub enum Method {
    /// Through standard input and output.
    Stdio,
    /// Through HTTP on a port.
    Http(u16),
}

/// The method that a text names: `stdio`, or `http:` and a port in decimal
/// digits.
pub open spec fn method_of(value: Seq<char>) -> Option<Method> {
    if value == "stdio"@ {
        Some(Method::Stdio)
    } else if value.len() > 5 && value.take(5) == "http:"@ && crate::text::all_digits(
        value.skip(5),
    ) && crate::text::digits_value(value.skip(5)) <= u16::MAX {
        Some(Method::Http(crate::text::digits_value(value.skip(5)) as u16))
    } else {
        None
    }
}

/// Reads the method that a text names.
pub fn parse_method(value: &str) -> (method: Option<Method>)
    ensures
        method == method_of(value@),
{
    if value.to_owned() == "stdio".to_owned() {
        return Some(Method::Stdio);
    }
    let len = value.unicode_len();
    if len <= 5 {
        return None;
    }
    let scheme = value.substring_char(0, 5).to_owned();
    assert(scheme@ =~= value@.take(5));
    if !(scheme == "http:".to_owned()) {
        return None;
    }
    match crate::text::digits_after(value, 5, 65535) {
        Some(port) => Some(Method::Http(port as u16)),
        None => None,
    }
}

/// A task as a student sees it.
#[derive(Debug)]
pub struct Task {
    pub description: Option<String>,
    pub task_id: i32,
    pub placement: i32,
    pub allow_editor: bool,
    pub has_material: bool,
}

/// An assignment as a student sees it.
#[derive(Debug)]
pub struct Assignment {
    pub assignment_id: i32,
    pub name: String,
    pub description: Option<String>,
    pub tasks: Vec<Task>,
    pub deadline: String,
}

/// An assignment as its instructor sees it, in the form in which it can be
/// sent back to replace the assignment.
#[derive(Debug)]
pub struct FullAssignmentInfo {
    pub assignment_name: String,
    pub deadline: String,
    pub tasks: Vec<ReqTask>,
}

/// A stored test.
#[derive(Debug)]
pub struct StoredTest {
    pub test_name: Option<String>,
    pub input: String,
    pub output: String,
    pub public: bool,
    pub timeout: Option<i32>,
}

/// A stored task with its tests.
#[derive(Debug)]
pub struct StoredTask {
    pub task_description: String,
    pub allow_editor: bool,
    pub material: Option<Vec<u8>>,
    pub material_filename: Option<String>,
    pub tests: Vec<StoredTest>,
}

/// The time limit of a stored test in seconds, as the grader reads it. A
/// negative limit wraps around to a very long one.
pub open spec fn timeout_seconds(timeout: Option<i32>) -> Option<u64> {
    match timeout {
        Some(t) => Some(
            if t >= 0 {
                t as u64
            } else {
                (t + 0x1_0000_0000_0000_0000) as u64
            },
        ),
        None => None,
    }
}

/// The test that the grader runs for a stored test.
pub open spec fn graded_test(row: StoredTest) -> Test {
    Test {
        test_name: row.test_name,
        public: row.public,
        output: row.output,
        input: row.input,
        timeout: timeout_seconds(row.timeout),
    }
}

/// The test that the grader runs for one stored test.
pub fn graded(row: &StoredTest) -> (test: Test)
    ensures
        test == graded_test(*row),
{
    let timeout = match row.timeout {
        Some(t) => Some(
            if t >= 0 {
                t as u64
            } else {
                u64::MAX - ((-(t as i64) - 1) as u64)
            },
        ),
        None => None,
    };
    Test {
        test_name: row.test_name.clone(),
        public: row.public,
        output: row.output.clone(),
        input: row.input.clone(),
        timeout,
    }
}

/// The tests that the grader runs for a task, in stored order.
pub fn container_get_task_details(rows: &Vec<StoredTest>) -> (tests: Vec<Test>)
    ensures
        tests@ == Seq::new(rows@.len(), |i: int| graded_test(rows@[i])),
{
    let mut tests: Vec<Test> = Vec::new();
    let mut i: usize = 0;
    while i < rows.len()
        invariant
            i <= rows.len(),
            tests@ =~= Seq::new(i as nat, |k: int| graded_test(rows@[k])),
        decreases rows.len() - i,
    {
        tests.push(graded(&rows[i]));
        i = i + 1;
    }
    tests
}

/// The test of a stored test as an instructor sees it: input and output as
/// text, no files.
pub open spec fn shown_test(row: StoredTest) -> ReqTest {
    ReqTest {
        test_name: row.test_name,
        is_public: row.public,
        input: Some(row.input),
        output: Some(row.output),
        input_file_base64: None,
        output_file_base64: None,
    }
}

/// The material of a task as base64 text.
pub open spec fn shown_material(material: Option<Vec<u8>>) -> Option<Seq<char>> {
    match material {
        Some(bytes) => Some(base64_of(bytes@)),
        None => None,
    }
}

/// Whether a task is shown as `shown`: its description, flags and file name
/// as stored, its material in base64, no time limit, and its tests in
/// stored order.
pub open spec fn shows_task(shown: ReqTask, row: StoredTask) -> bool {
    &&& shown.task_description == row.task_description
    &&& shown.allow_editor == row.allow_editor
    &&& opt_text(shown.material_base64) == shown_material(row.material)
    &&& shown.material_filename == row.material_filename
    &&& shown.timeout is None
    &&& shown.tests@ == Seq::new(row.tests@.len(), |i: int| shown_test(row.tests@[i]))
}

/// The material of every task is short enough to be encoded.
pub open spec fn encodable(tasks: Seq<StoredTask>) -> bool {
    forall|i: int|
        0 <= i < tasks.len() ==> ((#[trigger] tasks[i]).material is Some
            ==> tasks[i].material->0@.len() <= isize::MAX)
}

fn show_tests(rows: &Vec<StoredTest>) -> (tests: Vec<ReqTest>)
    ensures
        tests@ == Seq::new(rows@.len(), |i: int| shown_test(rows@[i])),
{
    let mut tests: Vec<ReqTest> = Vec::new();
    let mut i: usize = 0;
    while i < rows.len()
        invariant
            i <= rows.len(),
            tests@ =~= Seq::new(i as nat, |k: int| shown_test(rows@[k])),
        decreases rows.len() - i,
    {
        let row = &rows[i];
        tests.push(
            ReqTest {
                test_name: row.test_name.clone(),
                is_public: row.public,
                input: Some(row.input.clone()),
                output: Some(row.output.clone()),
                input_file_base64: None,
                output_file_base64: None,
            },
        );
        i = i + 1;
    }
    tests
}

fn show_task(row: &StoredTask) -> (shown: ReqTask)
    requires
        row.material is Some ==> row.material->0@.len() <= isize::MAX,
    ensures
        shows_task(shown, *row),
{
    let material_base64 = match &row.material {
        Some(bytes) => Some(base64_encode(bytes.as_slice())),
        None => None,
    };
    ReqTask {
        task_description: row.task_description.clone(),
        allow_editor: row.allow_editor,
        material_base64,
        material_filename: row.material_filename.clone(),
        timeout: None,
        tests: show_tests(&row.tests),
    }
}

/// Puts together what an instructor sees of an assignment: its name, its
/// deadline as text, and its tasks in stored order. There is nothing to see
/// only where the deadline lies outside of the calendar.
pub fn retrieve_full_assignment_info(
    assignment_name: String,
    deadline: Timestamp,
    tasks: &Vec<StoredTask>,
) -> (info: Option<FullAssignmentInfo>)
    requires
        encodable(tasks@),
    ensures
        match info {
            Some(i) => {
                &&& i.assignment_name == assignment_name
                &&& timestamp_text(deadline.secs, deadline.nanos) == Some(i.deadline@)
                &&& i.tasks@.len() == tasks@.len()
                &&& forall|k: int|
                    0 <= k < tasks@.len() ==> shows_task(#[trigger] i.tasks@[k], tasks@[k])
            },
            None => timestamp_text(deadline.secs, deadline.nanos) is None,
        },
{
    let deadline_text = match format_timestamp(deadline) {
        Some(text) => text,
        None => {
            return None;
        },
    };
    let mut shown_tasks: Vec<ReqTask> = Vec::new();
    let mut i: usize = 0;
    while i < tasks.len()
        invariant
            i <= tasks.len(),
            encodable(tasks@),
            shown_tasks@.len() == i,
            forall|k: int| 0 <= k < i ==> shows_task(#[trigger] shown_tasks@[k], tasks@[k]),
        decreases tasks.len() - i,
    {
        let shown = show_task(&tasks[i]);
        shown_tasks.push(shown);
        i = i + 1;
    }
    Some(FullAssignmentInfo { assignment_name, deadline: deadline_text, tasks: shown_tasks })
}

/// Puts together what a student sees of an assignment. There is nothing to
/// see only where the deadline lies outside of the calendar.
pub fn get_assignment_info(
    assignment_id: i32,
    name: String,
    description: Option<String>,
    deadline: Timestamp,
    tasks: Vec<Task>,
) -> (shown: Option<Assignment>)
    ensures
        match shown {
            Some(a) => {
                &&& a.assignment_id == assignment_id
                &&& a.name == name
                &&& a.description == description
                &&& a.tasks == tasks
                &&& timestamp_text(deadline.secs, deadline.nanos) == Some(a.deadline@)
            },
            None => timestamp_text(deadline.secs, deadline.nanos) is None,
        },
{
    match format_timestamp(deadline) {
        Some(text) => Some(Assignment { assignment_id, name, description, tasks, deadline: text }),
        None => None,
    }
}

/// Puts together what a student sees of an assignment in the list of a
/// class, with the student's score on it, or zero where there is none.
/// There is nothing to see only where the deadline lies outside of the
/// calendar.
pub fn get_assignments_for_class(
    assignment_id: i32,
    assignment_name: String,
    assignment_description: Option<String>,
    deadline: Timestamp,
    score: Option<Ratio>,
) -> (shown: Option<AssignmentInfo>)
    ensures
        match shown {
            Some(a) => {
                &&& a.assignment_id == assignment_id
                &&& a.assignment_name == assignment_name
                &&& a.assignment_description == assignment_description
                &&& timestamp_text(deadline.secs, deadline.nanos) == Some(a.assignment_deadline@)
                &&& a.assignment_score == match score {
                    Some(s) => s,
                    None => Ratio { numerator: 0, denominator: 1 },
                }
            },
            None => timestamp_text(deadline.secs, deadline.nanos) is None,
        },
{
    let assignment_score = match score {
        Some(s) => s,
        None => Ratio::zero(),
    };
    match format_timestamp(deadline) {
        Some(text) => Some(
            AssignmentInfo {
                assignment_id,
                assignment_name,
                assignment_description,
                assignment_deadline: text,
                assignment_score,
            },
        ),
        None => None,
    }
}

/// The material of a task for download: its bytes in base64, empty where
/// the task has none, and its file name.
pub fn download_material(material: &Option<Vec<u8>>, filename: String) -> (download: (
    String,
    String,
))
    requires
        material is Some ==> material->0@.len() <= isize::MAX,
    ensures
        download.0@ == match material {
            Some(bytes) => base64_of(bytes@),
            None => base64_of(Seq::empty()),
        },
        download.1 == filename,
{
    let text = match material {
        Some(bytes) => base64_encode(bytes.as_slice()),
        None => {
            let nothing: Vec<u8> = Vec::new();
            base64_encode(nothing.as_slice())
        },
    };
    (text, filename)
}

} // verus!
