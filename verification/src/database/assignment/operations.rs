//! The table of task grades: one row per user and task, from the moment a
//! submission is accepted until its grade is known.

use crate::model::assignment_grade::{AssignmentGrade, AssignmentGradeView};
use crate::score::{aggregate, assignment_score, tally, worth, Ratio, TaskTally};
use crate::text::opt_text;
use crate::time::Timestamp;
use vstd::prelude::*;
use vstd::slice::slice_to_vec;

verus! {

/// One row of the grade table.
#[derive(Debug)]
pub struct TaskGrade {
    pub user_id: i32,
    pub task_id: i32,
    pub assignment_id: i32,
    pub submission_zip: Vec<u8>,
    pub json_results: Option<Vec<u8>>,
    pub grade: Option<Ratio>,
    pub error: Option<String>,
    pub was_late: bool,
}

pub struct TaskGradeView {
    pub user_id: i32,
    pub task_id: i32,
    pub assignment_id: i32,
    pub submission_zip: Seq<u8>,
    pub json_results: Option<Seq<u8>>,
    pub grade: Option<Ratio>,
    pub error: Option<Seq<char>>,
    pub was_late: bool,
}

/// The bytes of an optional byte string.
pub open spec fn opt_bytes(bytes: Option<Vec<u8>>) -> Option<Seq<u8>> {
    match bytes {
        Some(b) => Some(b@),
        None => None,
    }
}

impl View for TaskGrade {
    type V = TaskGradeView;

    open spec fn view(&self) -> TaskGradeView {
        TaskGradeView {
            user_id: self.user_id,
            task_id: self.task_id,
            assignment_id: self.assignment_id,
            submission_zip: self.submission_zip@,
            json_results: opt_bytes(self.json_results),
            grade: self.grade,
            error: opt_text(self.error),
            was_late: self.was_late,
        }
    }
}

impl TaskGradeView {
    /// The row belongs to this user and task.
    pub open spec fn has_key(self, user_id: i32, task_id: i32) -> bool {
        self.user_id == user_id && self.task_id == task_id
    }

    /// The submission is still being graded: the row has neither a grade nor
    /// a terminal error.
    pub open spec fn in_progress(self) -> bool {
        self.grade is None && self.error is None
    }

    /// The grade, where there is one, lies between zero and one.
    pub open spec fn grade_in_range(self) -> bool {
        self.grade is Some ==> self.grade->0.is_grade()
    }
}

/// A submission is late exactly when it is made at the deadline or after it.
pub open spec fn late(submission_time: Timestamp, deadline: Timestamp) -> bool {
    submission_time.at_or_after(deadline)
}

/// Whether a submission made at `submission_time` is late.
pub fn was_late(submission_time: &Timestamp, deadline: &Timestamp) -> (r: bool)
    ensures
        r == late(*submission_time, *deadline),
{
    submission_time.is_at_or_after(deadline)
}

/// Lateness is monotone: once late, a submission stays late at every later
/// instant.
pub proof fn lemma_late_is_monotone(earlier: Timestamp, later: Timestamp, deadline: Timestamp)
    requires
        later.at_or_after(earlier),
        late(earlier, deadline),
    ensures
        late(later, deadline),
{
}

/// The row that accepting a submission writes: the archive, the late flag,
/// and no result yet.
pub open spec fn fresh_row(
    user_id: i32,
    assignment_id: i32,
    task_id: i32,
    was_late: bool,
    zip_file: Seq<u8>,
) -> TaskGradeView {
    TaskGradeView {
        user_id,
        task_id,
        assignment_id,
        submission_zip: zip_file,
        json_results: None,
        grade: None,
        error: None,
        was_late,
    }
}

/// No two rows belong to the same user and task.
pub open spec fn distinct_keys(rows: Seq<TaskGradeView>) -> bool {
    forall|i: int, j: int|
        0 <= i < rows.len() && 0 <= j < rows.len() && i != j ==> !(#[trigger] rows[i]).has_key(
            (#[trigger] rows[j]).user_id,
            rows[j].task_id,
        )
}

/// Every grade in the table lies between zero and one.
pub open spec fn grades_in_range(rows: Seq<TaskGradeView>) -> bool {
    forall|i: int| 0 <= i < rows.len() ==> (#[trigger] rows[i]).grade_in_range()
}

/// The row of a user and task, if the table has one.
pub open spec fn row_for(rows: Seq<TaskGradeView>, user_id: i32, task_id: i32) -> Option<
    TaskGradeView,
>
    decreases rows.len(),
{
    if rows.len() == 0 {
        None
    } else if rows.last().has_key(user_id, task_id) {
        Some(rows.last())
    } else {
        row_for(rows.drop_last(), user_id, task_id)
    }
}

/// The table without the rows of a user and task.
pub open spec fn without(rows: Seq<TaskGradeView>, user_id: i32, task_id: i32) -> Seq<
    TaskGradeView,
>
    decreases rows.len(),
{
    if rows.len() == 0 {
        rows
    } else if rows.last().has_key(user_id, task_id) {
        without(rows.drop_last(), user_id, task_id)
    } else {
        without(rows.drop_last(), user_id, task_id).push(rows.last())
    }
}

/// Whether a submission of the user for the task is being graded.
pub open spec fn in_progress(rows: Seq<TaskGradeView>, user_id: i32, task_id: i32) -> bool {
    match row_for(rows, user_id, task_id) {
        Some(row) => row.in_progress(),
        None => false,
    }
}

/// The views of a list of rows.
pub open spec fn row_views(rows: Seq<TaskGrade>) -> Seq<TaskGradeView> {
    Seq::new(rows.len(), |i: int| rows[i]@)
}

/// A table with no row for a key has none after the key's rows are removed,
/// and is unchanged by the removal.
pub proof fn lemma_without_absent(rows: Seq<TaskGradeView>, user_id: i32, task_id: i32)
    requires
        forall|i: int| 0 <= i < rows.len() ==> !(#[trigger] rows[i]).has_key(user_id, task_id),
    ensures
        without(rows, user_id, task_id) == rows,
        row_for(rows, user_id, task_id) is None,
    decreases rows.len(),
{
    if rows.len() > 0 {
        let front = rows.drop_last();
        assert forall|i: int| 0 <= i < front.len() implies !(#[trigger] front[i]).has_key(
            user_id,
            task_id,
        ) by {
            assert(front[i] == rows[i]);
        }
        lemma_without_absent(front, user_id, task_id);
        assert(front.push(rows.last()) =~= rows);
    }
}

/// In a table with distinct keys, the row at a position is the row of its
/// key, and removing the key's rows removes exactly that position.
pub proof fn lemma_row_at(rows: Seq<TaskGradeView>, at: int)
    requires
        distinct_keys(rows),
        0 <= at < rows.len(),
    ensures
        row_for(rows, rows[at].user_id, rows[at].task_id) == Some(rows[at]),
        without(rows, rows[at].user_id, rows[at].task_id) == rows.remove(at),
    decreases rows.len(),
{
    let user_id = rows[at].user_id;
    let task_id = rows[at].task_id;
    let front = rows.drop_last();
    if at == rows.len() - 1 {
        assert forall|i: int| 0 <= i < front.len() implies !(#[trigger] front[i]).has_key(
            user_id,
            task_id,
        ) by {
            assert(front[i] == rows[i]);
        }
        lemma_without_absent(front, user_id, task_id);
        assert(rows.remove(at) =~= front);
    } else {
        assert(!rows.last().has_key(user_id, task_id)) by {
            assert(rows.last() == rows[rows.len() - 1]);
        }
        assert(distinct_keys(front)) by {
            assert forall|i: int, j: int|
                0 <= i < front.len() && 0 <= j < front.len() && i != j implies !(
                #[trigger] front[i]).has_key((#[trigger] front[j]).user_id, front[j].task_id) by {
                assert(front[i] == rows[i] && front[j] == rows[j]);
            }
        }
        assert(front[at] == rows[at]);
        lemma_row_at(front, at);
        assert(front.remove(at).push(rows.last()) =~= rows.remove(at));
    }
}

/// Removing a key's rows leaves no row for the key, touches no other row,
/// and keeps keys distinct and grades in range.
pub proof fn lemma_without(rows: Seq<TaskGradeView>, user_id: i32, task_id: i32)
    ensures
        row_for(without(rows, user_id, task_id), user_id, task_id) is None,
        forall|i: int|
            0 <= i < without(rows, user_id, task_id).len() ==> !(#[trigger] without(
                rows,
                user_id,
                task_id,
            )[i]).has_key(user_id, task_id),
        forall|u: i32, t: i32|
            !(u == user_id && t == task_id) ==> #[trigger] row_for(
                without(rows, user_id, task_id),
                u,
                t,
            ) == row_for(rows, u, t),
        distinct_keys(rows) ==> distinct_keys(without(rows, user_id, task_id)),
        grades_in_range(rows) ==> grades_in_range(without(rows, user_id, task_id)),
        without(rows, user_id, task_id).len() <= rows.len(),
    decreases rows.len(),
{
    let rest = without(rows, user_id, task_id);
    if rows.len() > 0 {
        let front = rows.drop_last();
        let front_rest = without(front, user_id, task_id);
        lemma_without(front, user_id, task_id);
        lemma_without_members(rows, user_id, task_id);
        if !rows.last().has_key(user_id, task_id) {
            assert(rest == front_rest.push(rows.last()));
            assert(rest.drop_last() =~= front_rest);
            assert forall|u: i32, t: i32| !(u == user_id && t == task_id) implies #[trigger] row_for(
                rest,
                u,
                t,
            ) == row_for(rows, u, t) by {
                assert(row_for(front_rest, u, t) == row_for(front, u, t));
            }
        } else {
            assert forall|u: i32, t: i32| !(u == user_id && t == task_id) implies #[trigger] row_for(
                rest,
                u,
                t,
            ) == row_for(rows, u, t) by {
                assert(row_for(front_rest, u, t) == row_for(front, u, t));
            }
        }
        if distinct_keys(rows) {
            assert forall|i: int, j: int|
                0 <= i < rest.len() && 0 <= j < rest.len() && i != j implies !(
                #[trigger] rest[i]).has_key((#[trigger] rest[j]).user_id, rest[j].task_id) by {
                lemma_without_order(rows, user_id, task_id, i, j);
            }
        }
    }
}

/// Every row that is left after a removal was in the table before.
proof fn lemma_without_members(rows: Seq<TaskGradeView>, user_id: i32, task_id: i32)
    ensures
        forall|i: int|
            0 <= i < without(rows, user_id, task_id).len() ==> exists|k: int|
                0 <= k < rows.len() && rows[k] == #[trigger] without(rows, user_id, task_id)[i],
        grades_in_range(rows) ==> grades_in_range(without(rows, user_id, task_id)),
    decreases rows.len(),
{
    let rest = without(rows, user_id, task_id);
    if rows.len() > 0 {
        let front = rows.drop_last();
        let front_rest = without(front, user_id, task_id);
        lemma_without_members(front, user_id, task_id);
        assert forall|i: int| 0 <= i < rest.len() implies exists|k: int|
            0 <= k < rows.len() && rows[k] == #[trigger] rest[i] by {
            if i < front_rest.len() {
                let k = choose|k: int| 0 <= k < front.len() && front[k] == front_rest[i];
                assert(rows[k] == front[k]);
                assert(rest[i] == front_rest[i]);
            } else {
                assert(rest[i] == rows[rows.len() - 1]);
            }
        }
        if grades_in_range(rows) {
            assert forall|i: int| 0 <= i < rest.len() implies (#[trigger] rest[i]).grade_in_range() by {
                let k = choose|k: int| 0 <= k < rows.len() && rows[k] == rest[i];
                assert(rows[k].grade_in_range());
            }
        }
    }
}

/// Rows that are left after a removal stand in the order they had before.
proof fn lemma_without_order(
    rows: Seq<TaskGradeView>,
    user_id: i32,
    task_id: i32,
    i: int,
    j: int,
)
    requires
        distinct_keys(rows),
        0 <= i < without(rows, user_id, task_id).len(),
        0 <= j < without(rows, user_id, task_id).len(),
        i != j,
    ensures
        !without(rows, user_id, task_id)[i].has_key(
            without(rows, user_id, task_id)[j].user_id,
            without(rows, user_id, task_id)[j].task_id,
        ),
    decreases rows.len(),
{
    let rest = without(rows, user_id, task_id);
    if rows.len() > 0 {
        let front = rows.drop_last();
        let front_rest = without(front, user_id, task_id);
        assert(distinct_keys(front)) by {
            assert forall|a: int, b: int|
                0 <= a < front.len() && 0 <= b < front.len() && a != b implies !(
                #[trigger] front[a]).has_key((#[trigger] front[b]).user_id, front[b].task_id) by {
                assert(front[a] == rows[a] && front[b] == rows[b]);
            }
        }
        lemma_without_members(front, user_id, task_id);
        if rows.last().has_key(user_id, task_id) {
            lemma_without_order(front, user_id, task_id, i, j);
        } else if i < front_rest.len() && j < front_rest.len() {
            lemma_without_order(front, user_id, task_id, i, j);
            assert(rest[i] == front_rest[i] && rest[j] == front_rest[j]);
        } else {
            let inner = if i < front_rest.len() {
                i
            } else {
                j
            };
            let k = choose|k: int| 0 <= k < front.len() && front[k] == front_rest[inner];
            assert(rows[k] == front[k]);
            assert(rest[inner] == front_rest[inner]);
            let last = rows.len() - 1;
            assert(rows[last] == rows.last());
            assert(!rows[k].has_key(rows[last].user_id, rows[last].task_id));
            assert(!rows[last].has_key(rows[k].user_id, rows[k].task_id));
        }
    }
}

/// Why the table refused a row.
#[derive(Clone, Copy, Debug, PartialEq, Eq, Structural)]
pub enum StoreError {
    /// The user already has a row for the task.
    Duplicate,
    /// The grade does not lie between zero and one.
    GradeOutOfRange,
}

/// Why a submission was not accepted.
#[derive(Clone, Copy, Debug, PartialEq, Eq, Structural)]
pub enum SubmitError {
    /// An earlier submission of the user for the task is still being graded.
    InProgress,
}

/// The table after a submission arrives, and whether the submission was
/// accepted. While an earlier submission is being graded the table stays as
/// it is; otherwise the old row goes and a fresh one comes in its place.
pub open spec fn submitted(
    rows: Seq<TaskGradeView>,
    user_id: i32,
    assignment_id: i32,
    task_id: i32,
    submission_time: Timestamp,
    deadline: Timestamp,
    zip_file: Seq<u8>,
) -> (Seq<TaskGradeView>, Result<bool, SubmitError>) {
    if in_progress(rows, user_id, task_id) {
        (rows, Err(SubmitError::InProgress))
    } else {
        (
            without(rows, user_id, task_id).push(
                fresh_row(
                    user_id,
                    assignment_id,
                    task_id,
                    late(submission_time, deadline),
                    zip_file,
                ),
            ),
            Ok(late(submission_time, deadline)),
        )
    }
}

/// The table after the results of a user's task are written: the row of the
/// user and task holds them, every other row is as before.
pub open spec fn with_grade(
    rows: Seq<TaskGradeView>,
    user_id: i32,
    task_id: i32,
    results: Seq<u8>,
    grade: Ratio,
) -> Seq<TaskGradeView> {
    Seq::new(
        rows.len(),
        |i: int|
            if rows[i].has_key(user_id, task_id) {
                TaskGradeView { json_results: Some(results), grade: Some(grade), ..rows[i] }
            } else {
                rows[i]
            },
    )
}

/// The table after a grading failure is written: the row of the user and
/// task holds the error, every other row is as before.
pub open spec fn with_error(
    rows: Seq<TaskGradeView>,
    user_id: i32,
    task_id: i32,
    error: Seq<char>,
) -> Seq<TaskGradeView> {
    Seq::new(
        rows.len(),
        |i: int|
            if rows[i].has_key(user_id, task_id) {
                TaskGradeView { error: Some(error), ..rows[i] }
            } else {
                rows[i]
            },
    )
}

/// Adding a row for a key that has none keeps keys distinct, makes the row
/// the row of its key, and leaves the rows of other keys as they were.
pub proof fn lemma_push_row(rows: Seq<TaskGradeView>, row: TaskGradeView)
    requires
        forall|i: int| 0 <= i < rows.len() ==> !(#[trigger] rows[i]).has_key(row.user_id, row.task_id),
    ensures
        row_for(rows.push(row), row.user_id, row.task_id) == Some(row),
        forall|u: i32, t: i32|
            !row.has_key(u, t) ==> #[trigger] row_for(rows.push(row), u, t) == row_for(rows, u, t),
        distinct_keys(rows) ==> distinct_keys(rows.push(row)),
        grades_in_range(rows) && row.grade_in_range() ==> grades_in_range(rows.push(row)),
{
    let after = rows.push(row);
    assert(after.drop_last() =~= rows);
    assert(after.last() == row);
}

/// Once a submission is accepted, the user's task is in progress, and the
/// next submission for it is turned away and leaves the table as it is.
pub proof fn lemma_one_submission_in_flight(
    rows: Seq<TaskGradeView>,
    user_id: i32,
    assignment_id: i32,
    task_id: i32,
    first_time: Timestamp,
    second_time: Timestamp,
    deadline: Timestamp,
    first_zip: Seq<u8>,
    second_zip: Seq<u8>,
)
    requires
        submitted(rows, user_id, assignment_id, task_id, first_time, deadline, first_zip).1 is Ok,
    ensures
        ({
            let after = submitted(
                rows,
                user_id,
                assignment_id,
                task_id,
                first_time,
                deadline,
                first_zip,
            ).0;
            &&& in_progress(after, user_id, task_id)
            &&& submitted(
                after,
                user_id,
                assignment_id,
                task_id,
                second_time,
                deadline,
                second_zip,
            ) == (after, Err::<bool, SubmitError>(SubmitError::InProgress))
        }),
{
    lemma_without(rows, user_id, task_id);
    lemma_push_row(
        without(rows, user_id, task_id),
        fresh_row(user_id, assignment_id, task_id, late(first_time, deadline), first_zip),
    );
}

/// The table and the answers after a run of submissions of one user for one
/// task, taken one after the other in the order in which they arrive, each
/// with its time and its archive.
pub open spec fn submitted_in_turn(
    rows: Seq<TaskGradeView>,
    user_id: i32,
    assignment_id: i32,
    task_id: i32,
    deadline: Timestamp,
    arrivals: Seq<(Timestamp, Seq<u8>)>,
) -> (Seq<TaskGradeView>, Seq<Result<bool, SubmitError>>)
    decreases arrivals.len(),
{
    if arrivals.len() == 0 {
        (rows, Seq::empty())
    } else {
        let before = submitted_in_turn(
            rows,
            user_id,
            assignment_id,
            task_id,
            deadline,
            arrivals.drop_last(),
        );
        let last = submitted(
            before.0,
            user_id,
            assignment_id,
            task_id,
            arrivals.last().0,
            deadline,
            arrivals.last().1,
        );
        (last.0, before.1.push(last.1))
    }
}

/// Of any number of submissions of one user for one task that arrive while
/// none of them is graded, exactly one is accepted, the first, and every
/// other one is turned away as too early. Where a submission was already
/// being graded when they arrived, all of them are turned away.
pub proof fn lemma_exactly_one_is_accepted(
    rows: Seq<TaskGradeView>,
    user_id: i32,
    assignment_id: i32,
    task_id: i32,
    deadline: Timestamp,
    arrivals: Seq<(Timestamp, Seq<u8>)>,
)
    requires
        arrivals.len() >= 1,
    ensures
        ({
            let after = submitted_in_turn(
                rows,
                user_id,
                assignment_id,
                task_id,
                deadline,
                arrivals,
            );
            &&& after.1.len() == arrivals.len()
            &&& in_progress(after.0, user_id, task_id)
            &&& after.1[0] is Ok <==> !in_progress(rows, user_id, task_id)
            &&& forall|i: int|
                1 <= i < arrivals.len() ==> #[trigger] after.1[i] == Err::<bool, SubmitError>(
                    SubmitError::InProgress,
                )
        }),
    decreases arrivals.len(),
{
    let front = arrivals.drop_last();
    let before = submitted_in_turn(rows, user_id, assignment_id, task_id, deadline, front);
    if front.len() == 0 {
        assert(before == (rows, Seq::<Result<bool, SubmitError>>::empty()));
        if !in_progress(rows, user_id, task_id) {
            lemma_one_submission_in_flight(
                rows,
                user_id,
                assignment_id,
                task_id,
                arrivals.last().0,
                arrivals.last().0,
                deadline,
                arrivals.last().1,
                arrivals.last().1,
            );
        }
    } else {
        lemma_exactly_one_is_accepted(rows, user_id, assignment_id, task_id, deadline, front);
    }
}

/// A submission, accepted or not, leaves at most one row per user and task,
/// and leaves every grade in range.
pub proof fn lemma_submitted_keeps_table(
    rows: Seq<TaskGradeView>,
    user_id: i32,
    assignment_id: i32,
    task_id: i32,
    submission_time: Timestamp,
    deadline: Timestamp,
    zip_file: Seq<u8>,
)
    requires
        distinct_keys(rows),
        grades_in_range(rows),
    ensures
        distinct_keys(
            submitted(rows, user_id, assignment_id, task_id, submission_time, deadline, zip_file).0,
        ),
        grades_in_range(
            submitted(rows, user_id, assignment_id, task_id, submission_time, deadline, zip_file).0,
        ),
{
    lemma_without(rows, user_id, task_id);
    lemma_push_row(
        without(rows, user_id, task_id),
        fresh_row(user_id, assignment_id, task_id, late(submission_time, deadline), zip_file),
    );
}

/// The grade table. It never holds two rows for the same user and task, and
/// every grade in it lies between zero and one.
#[derive(Debug)]
pub struct GradeTable {
    rows: Vec<TaskGrade>,
}

impl View for GradeTable {
    type V = Seq<TaskGradeView>;

    closed spec fn view(&self) -> Seq<TaskGradeView> {
        row_views(self.rows@)
    }
}

impl GradeTable {
    #[verifier::type_invariant]
    spec fn well_formed(&self) -> bool {
        distinct_keys(row_views(self.rows@)) && grades_in_range(row_views(self.rows@))
    }

    /// The empty table.
    pub fn new() -> (table: GradeTable)
        ensures
            table@ == Seq::<TaskGradeView>::empty(),
    {
        let table = GradeTable { rows: Vec::new() };
        assert(row_views(table.rows@) =~= Seq::<TaskGradeView>::empty());
        table
    }

    /// Makes a table of rows that were read from a store, if no two of them
    /// belong to the same user and task and every grade lies between zero
    /// and one.
    pub fn from_rows(rows: Vec<TaskGrade>) -> (table: Option<GradeTable>)
        ensures
            table is Some <==> distinct_keys(row_views(rows@)) && grades_in_range(row_views(rows@)),
            table is Some ==> table->0@ == row_views(rows@),
    {
        let ghost views = row_views(rows@);
        let mut i: usize = 0;
        while i < rows.len()
            invariant
                i <= rows.len(),
                views == row_views(rows@),
                forall|a: int, b: int|
                    0 <= a < i && 0 <= b < i && a != b ==> !(#[trigger] views[a]).has_key(
                        (#[trigger] views[b]).user_id,
                        views[b].task_id,
                    ),
                forall|a: int| 0 <= a < i ==> (#[trigger] views[a]).grade_in_range(),
            decreases rows.len() - i,
        {
            let in_range = match rows[i].grade {
                Some(grade) => grade.check_grade(),
                None => true,
            };
            if !in_range {
                assert(!views[i as int].grade_in_range());
                return None;
            }
            let mut j: usize = 0;
            while j < i
                invariant
                    j <= i,
                    i < rows.len(),
                    views == row_views(rows@),
                    forall|b: int|
                        0 <= b < j ==> !(#[trigger] views[b]).has_key(
                            views[i as int].user_id,
                            views[i as int].task_id,
                        ),
                decreases i - j,
            {
                if rows[j].user_id == rows[i].user_id && rows[j].task_id == rows[i].task_id {
                    assert(views[j as int].has_key(views[i as int].user_id, views[i as int].task_id));
                    return None;
                }
                j = j + 1;
            }
            i = i + 1;
        }
        Some(GradeTable { rows })
    }

    /// The rows of the table: at most one per user and task, each grade in
    /// range.
    pub fn rows(&self) -> (rows: &Vec<TaskGrade>)
        ensures
            row_views(rows@) == self@,
            distinct_keys(self@),
            grades_in_range(self@),
    {
        proof {
            use_type_invariant(self);
        }
        &self.rows
    }

    /// The position of the row of a user and task.
    fn position(&self, user_id: i32, task_id: i32) -> (at: Option<usize>)
        ensures
            match at {
                Some(i) => i < self@.len() && self@[i as int].has_key(user_id, task_id) && row_for(
                    self@,
                    user_id,
                    task_id,
                ) == Some(self@[i as int]) && without(self@, user_id, task_id) == self@.remove(
                    i as int,
                ),
                None => row_for(self@, user_id, task_id) is None && without(self@, user_id, task_id)
                    == self@ && forall|i: int|
                    0 <= i < self@.len() ==> !(#[trigger] self@[i]).has_key(user_id, task_id),
            },
    {
        proof {
            use_type_invariant(self);
        }
        let mut i: usize = 0;
        while i < self.rows.len()
            invariant
                i <= self.rows.len(),
                distinct_keys(row_views(self.rows@)),
                forall|k: int|
                    0 <= k < i ==> !(#[trigger] row_views(self.rows@)[k]).has_key(user_id, task_id),
            decreases self.rows.len() - i,
        {
            if self.rows[i].user_id == user_id && self.rows[i].task_id == task_id {
                proof {
                    lemma_row_at(row_views(self.rows@), i as int);
                }
                return Some(i);
            }
            i = i + 1;
        }
        proof {
            lemma_without_absent(row_views(self.rows@), user_id, task_id);
        }
        None
    }

    /// The row of a user and task, if the table has one.
    pub fn find(&self, user_id: i32, task_id: i32) -> (row: Option<&TaskGrade>)
        ensures
            match row {
                Some(r) => row_for(self@, user_id, task_id) == Some(r@) && r@.grade_in_range(),
                None => row_for(self@, user_id, task_id) is None,
            },
    {
        proof {
            use_type_invariant(self);
        }
        match self.position(user_id, task_id) {
            Some(i) => {
                assert(row_views(self.rows@)[i as int].grade_in_range());
                Some(&self.rows[i])
            },
            None => None,
        }
    }

    /// Takes the rows out and leaves the table empty.
    fn take_rows(&mut self) -> (rows: Vec<TaskGrade>)
        ensures
            row_views(rows@) == old(self)@,
            distinct_keys(row_views(rows@)),
            grades_in_range(row_views(rows@)),
            final(self)@ == Seq::<TaskGradeView>::empty(),
    {
        let mut taken = GradeTable { rows: Vec::new() };
        assert(row_views(taken.rows@) =~= Seq::<TaskGradeView>::empty());
        core::mem::swap(self, &mut taken);
        proof {
            use_type_invariant(&taken);
        }
        let GradeTable { rows } = taken;
        rows
    }
}

/// In a table with distinct keys, writing results for a key changes the row
/// at the key's position and nothing else; with no row for the key, nothing
/// changes.
proof fn lemma_with_grade_at(
    rows: Seq<TaskGradeView>,
    user_id: i32,
    task_id: i32,
    results: Seq<u8>,
    grade: Ratio,
    at: int,
)
    requires
        distinct_keys(rows),
        0 <= at < rows.len(),
        rows[at].has_key(user_id, task_id),
    ensures
        with_grade(rows, user_id, task_id, results, grade) == rows.update(
            at,
            TaskGradeView { json_results: Some(results), grade: Some(grade), ..rows[at] },
        ),
{
    let changed = rows.update(
        at,
        TaskGradeView { json_results: Some(results), grade: Some(grade), ..rows[at] },
    );
    assert forall|i: int| 0 <= i < rows.len() implies with_grade(
        rows,
        user_id,
        task_id,
        results,
        grade,
    )[i] == changed[i] by {
        if i != at {
            assert(!rows[i].has_key(rows[at].user_id, rows[at].task_id));
        }
    }
    assert(with_grade(rows, user_id, task_id, results, grade) =~= changed);
}

proof fn lemma_with_error_at(
    rows: Seq<TaskGradeView>,
    user_id: i32,
    task_id: i32,
    error: Seq<char>,
    at: int,
)
    requires
        distinct_keys(rows),
        0 <= at < rows.len(),
        rows[at].has_key(user_id, task_id),
    ensures
        with_error(rows, user_id, task_id, error) == rows.update(
            at,
            TaskGradeView { error: Some(error), ..rows[at] },
        ),
{
    let changed = rows.update(at, TaskGradeView { error: Some(error), ..rows[at] });
    assert forall|i: int| 0 <= i < rows.len() implies with_error(rows, user_id, task_id, error)[i]
        == changed[i] by {
        if i != at {
            assert(!rows[i].has_key(rows[at].user_id, rows[at].task_id));
        }
    }
    assert(with_error(rows, user_id, task_id, error) =~= changed);
}

/// Replacing a row by one with the same key keeps keys distinct.
proof fn lemma_update_keeps_keys(rows: Seq<TaskGradeView>, at: int, row: TaskGradeView)
    requires
        distinct_keys(rows),
        0 <= at < rows.len(),
        row.has_key(rows[at].user_id, rows[at].task_id),
    ensures
        distinct_keys(rows.update(at, row)),
        grades_in_range(rows) && row.grade_in_range() ==> grades_in_range(rows.update(at, row)),
{
    let after = rows.update(at, row);
    assert forall|i: int, j: int|
        0 <= i < after.len() && 0 <= j < after.len() && i != j implies !(#[trigger] after[i]).has_key(
        (#[trigger] after[j]).user_id,
        after[j].task_id,
    ) by {
        assert(!rows[i].has_key(rows[j].user_id, rows[j].task_id));
    }
    if grades_in_range(rows) && row.grade_in_range() {
        assert forall|i: int| 0 <= i < after.len() implies (#[trigger] after[i]).grade_in_range() by {
            if i != at {
                assert(rows[i].grade_in_range());
            }
        }
    }
}

/// The row of a key after results or an error were written for it.
proof fn lemma_row_after_write(
    rows: Seq<TaskGradeView>,
    user_id: i32,
    task_id: i32,
    results: Seq<u8>,
    grade: Ratio,
    error: Seq<char>,
)
    ensures
        row_for(with_grade(rows, user_id, task_id, results, grade), user_id, task_id) == match row_for(
            rows,
            user_id,
            task_id,
        ) {
            Some(row) => Some(
                TaskGradeView { json_results: Some(results), grade: Some(grade), ..row },
            ),
            None => None,
        },
        row_for(with_error(rows, user_id, task_id, error), user_id, task_id) == match row_for(
            rows,
            user_id,
            task_id,
        ) {
            Some(row) => Some(TaskGradeView { error: Some(error), ..row }),
            None => None,
        },
    decreases rows.len(),
{
    if rows.len() > 0 {
        let front = rows.drop_last();
        lemma_row_after_write(front, user_id, task_id, results, grade, error);
        assert(with_grade(rows, user_id, task_id, results, grade).drop_last() =~= with_grade(
            front,
            user_id,
            task_id,
            results,
            grade,
        ));
        assert(with_error(rows, user_id, task_id, error).drop_last() =~= with_error(
            front,
            user_id,
            task_id,
            error,
        ));
    }
}

/// Once a grading job has ended, with results or with an error, the
/// submission no longer counts as being graded, so that the next submission
/// of the user for the task is accepted.
pub proof fn lemma_finished_is_not_in_progress(
    rows: Seq<TaskGradeView>,
    user_id: i32,
    assignment_id: i32,
    task_id: i32,
    results: Seq<u8>,
    grade: Ratio,
    error: Seq<char>,
    submission_time: Timestamp,
    deadline: Timestamp,
    zip_file: Seq<u8>,
)
    ensures
        !in_progress(with_grade(rows, user_id, task_id, results, grade), user_id, task_id),
        !in_progress(with_error(rows, user_id, task_id, error), user_id, task_id),
        submitted(
            with_grade(rows, user_id, task_id, results, grade),
            user_id,
            assignment_id,
            task_id,
            submission_time,
            deadline,
            zip_file,
        ).1 is Ok,
        submitted(
            with_error(rows, user_id, task_id, error),
            user_id,
            assignment_id,
            task_id,
            submission_time,
            deadline,
            zip_file,
        ).1 is Ok,
{
    lemma_row_after_write(rows, user_id, task_id, results, grade, error);
}

/// Whether a submission of the user for the task is being graded: the table
/// has a row for them that holds neither a grade nor an error.
pub fn submission_in_progress(table: &GradeTable, user_id: i32, task_id: i32) -> (r: bool)
    ensures
        r == in_progress(table@, user_id, task_id),
{
    match table.find(user_id, task_id) {
        Some(row) => row.grade.is_none() && row.error.is_none(),
        None => false,
    }
}

/// Deletes the row of a user and task, if there is one.
pub fn remove_old_grade(table: &mut GradeTable, user_id: i32, task_id: i32)
    ensures
        final(table)@ == without(old(table)@, user_id, task_id),
{
    let at = table.position(user_id, task_id);
    let mut rows = table.take_rows();
    proof {
        lemma_without(row_views(rows@), user_id, task_id);
    }
    match at {
        Some(i) => {
            let ghost before = rows@;
            rows.remove(i);
            assert(row_views(rows@) =~= row_views(before).remove(i as int));
        },
        None => {},
    }
    *table = GradeTable { rows };
}

/// Inserts the fresh row of a submission for a key that has no row.
fn insert_fresh(
    table: &mut GradeTable,
    user_id: i32,
    assignment_id: i32,
    task_id: i32,
    was_late: bool,
    zip_file: Vec<u8>,
)
    requires
        forall|i: int|
            0 <= i < old(table)@.len() ==> !(#[trigger] old(table)@[i]).has_key(user_id, task_id),
    ensures
        final(table)@ == old(table)@.push(
            fresh_row(user_id, assignment_id, task_id, was_late, zip_file@),
        ),
{
    let mut rows = table.take_rows();
    let row = TaskGrade {
        user_id,
        task_id,
        assignment_id,
        submission_zip: zip_file,
        json_results: None,
        grade: None,
        error: None,
        was_late,
    };
    proof {
        lemma_push_row(row_views(rows@), row@);
    }
    let ghost before = rows@;
    rows.push(row);
    assert(row_views(rows@) =~= row_views(before).push(row@));
    *table = GradeTable { rows };
}

/// Records that a submission was made: inserts a row with the archive and
/// the late flag and with every result column empty, and says whether the
/// submission was late. A user who already has a row for the task gets none.
pub fn mark_as_submitted(
    table: &mut GradeTable,
    user_id: i32,
    assignment_id: i32,
    task_id: i32,
    submission_time: Timestamp,
    deadline: Timestamp,
    zip_file: Vec<u8>,
) -> (r: Result<bool, StoreError>)
    ensures
        match r {
            Ok(was_late) => row_for(old(table)@, user_id, task_id) is None && was_late == late(
                submission_time,
                deadline,
            ) && final(table)@ == old(table)@.push(
                fresh_row(user_id, assignment_id, task_id, was_late, zip_file@),
            ),
            Err(e) => e == StoreError::Duplicate && row_for(old(table)@, user_id, task_id) is Some
                && final(table)@ == old(table)@,
        },
{
    if table.position(user_id, task_id).is_some() {
        return Err(StoreError::Duplicate);
    }
    let was_late = was_late(&submission_time, &deadline);
    insert_fresh(table, user_id, assignment_id, task_id, was_late, zip_file);
    Ok(was_late)
}

/// Accepts or turns away a submission, in one step: while an earlier
/// submission of the user for the task is being graded, nothing changes;
/// otherwise the old row is cleared and the new submission is recorded.
pub fn submit(
    table: &mut GradeTable,
    user_id: i32,
    assignment_id: i32,
    task_id: i32,
    submission_time: Timestamp,
    deadline: Timestamp,
    zip_file: Vec<u8>,
) -> (r: Result<bool, SubmitError>)
    ensures
        (final(table)@, r) == submitted(
            old(table)@,
            user_id,
            assignment_id,
            task_id,
            submission_time,
            deadline,
            zip_file@,
        ),
{
    if submission_in_progress(table, user_id, task_id) {
        return Err(SubmitError::InProgress);
    }
    remove_old_grade(table, user_id, task_id);
    proof {
        lemma_without(old(table)@, user_id, task_id);
    }
    let was_late = was_late(&submission_time, &deadline);
    insert_fresh(table, user_id, assignment_id, task_id, was_late, zip_file);
    Ok(was_late)
}

/// Writes the results and the grade of a user's task into their row. A grade
/// outside of zero to one is refused. Without a row, nothing changes.
pub fn container_add_task_grade(
    table: &mut GradeTable,
    user_id: i32,
    task_id: i32,
    results: Vec<u8>,
    grade: Ratio,
) -> (r: Result<(), StoreError>)
    ensures
        match r {
            Ok(_) => grade.is_grade() && final(table)@ == with_grade(
                old(table)@,
                user_id,
                task_id,
                results@,
                grade,
            ),
            Err(e) => e == StoreError::GradeOutOfRange && !grade.is_grade() && final(table)@ == old(
                table,
            )@,
        },
{
    if !grade.check_grade() {
        return Err(StoreError::GradeOutOfRange);
    }
    let at = table.position(user_id, task_id);
    match at {
        Some(i) => {
            let mut rows = table.take_rows();
            let ghost before = row_views(rows@);
            let mut row = rows.remove(i);
            row.json_results = Some(results);
            row.grade = Some(grade);
            proof {
                lemma_with_grade_at(before, user_id, task_id, results@, grade, i as int);
                lemma_update_keeps_keys(before, i as int, row@);
            }
            rows.insert(i, row);
            assert(row_views(rows@) =~= before.update(i as int, row@));
            *table = GradeTable { rows };
        },
        None => {
            assert(with_grade(table@, user_id, task_id, results@, grade) =~= table@);
        },
    }
    Ok(())
}

/// Writes a grading failure into the row of a user's task, so that the
/// submission no longer counts as being graded. Without a row, nothing
/// changes.
pub fn container_add_task_error(table: &mut GradeTable, user_id: i32, task_id: i32, error: String)
    ensures
        final(table)@ == with_error(old(table)@, user_id, task_id, error@),
{
    let at = table.position(user_id, task_id);
    match at {
        Some(i) => {
            let mut rows = table.take_rows();
            let ghost before = row_views(rows@);
            let mut row = rows.remove(i);
            row.error = Some(error);
            proof {
                lemma_with_error_at(before, user_id, task_id, error@, i as int);
                lemma_update_keeps_keys(before, i as int, row@);
                assert(before[i as int].grade_in_range());
            }
            rows.insert(i, row);
            assert(row_views(rows@) =~= before.update(i as int, row@));
            *table = GradeTable { rows };
        },
        None => {
            assert(with_error(table@, user_id, task_id, error@) =~= table@);
        },
    }
}

/// The stored results of a user's task, if the user has a row for the task
/// and it holds results.
pub fn get_task_score(table: &GradeTable, user_id: i32, task_id: i32) -> (results: Option<Vec<u8>>)
    ensures
        opt_bytes(results) == match row_for(table@, user_id, task_id) {
            Some(row) => row.json_results,
            None => None,
        },
{
    match table.find(user_id, task_id) {
        Some(row) => match &row.json_results {
            Some(json) => Some(slice_to_vec(json.as_slice())),
            None => None,
        },
        None => None,
    }
}

/// A task of an assignment with the number of its tests.
#[derive(Clone, Copy, Debug, PartialEq, Eq, Structural)]
pub struct TaskTests {
    pub task_id: i32,
    pub n_tests: u64,
}

/// A student enrolled in a class of the assignment.
#[derive(Debug)]
pub struct Student {
    pub id: i32,
    pub first_name: String,
    pub last_name: String,
    pub user_name: String,
}

/// A user enrolled in a class of the assignment, as a student or as an
/// instructor. A user is listed once for each class they are enrolled in.
#[derive(Debug)]
pub struct Member {
    pub id: i32,
    pub first_name: String,
    pub last_name: String,
    pub user_name: String,
    pub is_instructor: bool,
}

/// A member as a student.
pub open spec fn as_student(member: Member) -> Student {
    Student {
        id: member.id,
        first_name: member.first_name,
        last_name: member.last_name,
        user_name: member.user_name,
    }
}

/// The students among the members: those who are not instructors, in the
/// order of the members.
pub open spec fn students_among(members: Seq<Member>) -> Seq<Student>
    decreases members.len(),
{
    if members.len() == 0 {
        Seq::empty()
    } else if members.last().is_instructor {
        students_among(members.drop_last())
    } else {
        students_among(members.drop_last()).push(as_student(members.last()))
    }
}

/// What a task brings to a user's score: the worth of the grade in the
/// user's row, halved later if the row is late; nothing where the user has
/// no row for the task or the row has no grade.
pub open spec fn tally_for(rows: Seq<TaskGradeView>, user_id: i32, task: TaskTests) -> TaskTally {
    match row_for(rows, user_id, task.task_id) {
        Some(row) => match row.grade {
            Some(grade) => TaskTally {
                n_tests: task.n_tests,
                passes: worth(grade, task.n_tests) as u64,
                was_late: row.was_late,
            },
            None => TaskTally { n_tests: task.n_tests, passes: 0, was_late: false },
        },
        None => TaskTally { n_tests: task.n_tests, passes: 0, was_late: false },
    }
}

/// The tallies of all tasks of an assignment for one user.
pub open spec fn tallies_for(rows: Seq<TaskGradeView>, user_id: i32, tasks: Seq<TaskTests>) -> Seq<
    TaskTally,
> {
    Seq::new(tasks.len(), |i: int| tally_for(rows, user_id, tasks[i]))
}

/// The name under which a student is listed: first name, a space, last name.
pub open spec fn listed_name(student: Student) -> Seq<char> {
    student.first_name@ + seq![' '] + student.last_name@
}

/// The score of a student on an assignment with the given tasks.
pub open spec fn grade_for(rows: Seq<TaskGradeView>, student: Student, tasks: Seq<TaskTests>) -> AssignmentGradeView {
    AssignmentGradeView {
        name: listed_name(student),
        username: student.user_name@,
        score: aggregate(tallies_for(rows, student.id, tasks)),
    }
}

/// Whether a student with this id is in the list.
pub open spec fn listed(students: Seq<Student>, id: i32) -> bool {
    exists|j: int| 0 <= j < students.len() && (#[trigger] students[j]).id == id
}

/// The students of a list without repetition: each student where their id
/// first occurs.
pub open spec fn distinct_students(students: Seq<Student>) -> Seq<Student>
    decreases students.len(),
{
    if students.len() == 0 {
        students
    } else if listed(students.drop_last(), students.last().id) {
        distinct_students(students.drop_last())
    } else {
        distinct_students(students.drop_last()).push(students.last())
    }
}

/// The scores of the students of a list, one per student.
pub open spec fn grades_for(
    rows: Seq<TaskGradeView>,
    students: Seq<Student>,
    tasks: Seq<TaskTests>,
) -> Seq<AssignmentGradeView> {
    Seq::new(
        distinct_students(students).len(),
        |k: int| grade_for(rows, distinct_students(students)[k], tasks),
    )
}

/// No student is listed twice in the distinct list, every student of the
/// list is in it, and it holds no one else.
pub proof fn lemma_distinct_students(students: Seq<Student>)
    ensures
        forall|a: int, b: int|
            0 <= a < b < distinct_students(students).len() ==> (#[trigger] distinct_students(
                students,
            )[a]).id != (#[trigger] distinct_students(students)[b]).id,
        forall|id: i32| listed(students, id) <==> #[trigger] listed(distinct_students(students), id),
        distinct_students(students).len() <= students.len(),
    decreases students.len(),
{
    let all = distinct_students(students);
    if students.len() > 0 {
        let front = students.drop_last();
        let last = students.last();
        let kept = distinct_students(front);
        lemma_distinct_students(front);
        assert forall|id: i32| listed(students, id) <==> #[trigger] listed(all, id) by {
            if listed(students, id) {
                let j = choose|j: int| 0 <= j < students.len() && (#[trigger] students[j]).id == id;
                if j < front.len() {
                    assert(front[j].id == id);
                    assert(listed(front, id));
                    assert(listed(kept, id));
                    let k = choose|k: int| 0 <= k < kept.len() && (#[trigger] kept[k]).id == id;
                    assert(all[k].id == id);
                } else if listed(front, last.id) {
                    assert(listed(kept, id));
                } else {
                    assert(all[all.len() - 1].id == id);
                }
            }
            if listed(all, id) {
                let k = choose|k: int| 0 <= k < all.len() && (#[trigger] all[k]).id == id;
                if k < kept.len() {
                    assert(kept[k].id == id);
                    assert(listed(kept, id));
                    assert(listed(front, id));
                    let j = choose|j: int| 0 <= j < front.len() && (#[trigger] front[j]).id == id;
                    assert(students[j].id == id);
                } else {
                    assert(students[students.len() - 1].id == id);
                }
            }
        }
        assert forall|a: int, b: int| 0 <= a < b < all.len() implies (#[trigger] all[a]).id != (
        #[trigger] all[b]).id by {
            if b < kept.len() {
                assert(all[a] == kept[a] && all[b] == kept[b]);
            } else {
                assert(all[a] == kept[a]);
                assert(listed(kept, kept[a].id));
            }
        }
    }
}

/// The score of one student on an assignment: the mean of the task grades,
/// weighted by the number of tests of each task, with the grade of a late
/// task halved. A task without a graded row counts as zero.
pub fn score_of_student(table: &GradeTable, student: &Student, tasks: &Vec<TaskTests>) -> (grade:
    AssignmentGrade)
    ensures
        grade@ == grade_for(table@, *student, tasks@),
{
    let mut tallies: Vec<TaskTally> = Vec::new();
    let mut i: usize = 0;
    while i < tasks.len()
        invariant
            i <= tasks.len(),
            tallies@ =~= tallies_for(table@, student.id, tasks@).take(i as int),
        decreases tasks.len() - i,
    {
        let task = &tasks[i];
        let graded = match table.find(student.id, task.task_id) {
            Some(row) => match row.grade {
                Some(grade) => Some((grade, row.was_late)),
                None => None,
            },
            None => None,
        };
        tallies.push(tally(task.n_tests, graded));
        i = i + 1;
    }
    assert(tallies@ =~= tallies_for(table@, student.id, tasks@));
    proof {
        reveal_strlit(" ");
        assert(" "@ =~= seq![' ']);
    }
    let name = student.first_name.clone().concat(" ").concat(student.last_name.as_str());
    AssignmentGrade {
        name,
        username: student.user_name.clone(),
        score: assignment_score(&tallies),
    }
}

/// The scores of a list of students, one per student however often the
/// student is listed, in the order in which the students first occur.
pub fn scores_of_students(
    table: &GradeTable,
    students: &Vec<Student>,
    tasks: &Vec<TaskTests>,
) -> (grades: Vec<AssignmentGrade>)
    ensures
        grade_views(grades@) == grades_for(table@, students@, tasks@),
{
    let mut grades: Vec<AssignmentGrade> = Vec::new();
    let mut i: usize = 0;
    assert(students@.take(0) =~= Seq::<Student>::empty());
    assert(grade_views(grades@) =~= grades_for(table@, students@.take(0), tasks@));
    while i < students.len()
        invariant
            i <= students.len(),
            grade_views(grades@) == grades_for(table@, students@.take(i as int), tasks@),
        decreases students.len() - i,
    {
        let mut seen = false;
        let mut j: usize = 0;
        while j < i
            invariant
                j <= i,
                i < students.len(),
                seen == listed(students@.take(j as int), students@[i as int].id),
            decreases i - j,
        {
            if students[j].id == students[i].id {
                seen = true;
            }
            proof {
                let before = students@.take(j as int);
                let after = students@.take(j + 1);
                let id = students@[i as int].id;
                if listed(before, id) {
                    let k = choose|k: int| 0 <= k < before.len() && (#[trigger] before[k]).id == id;
                    assert(after[k].id == id);
                }
                if students@[j as int].id == id {
                    assert(after[j as int].id == id);
                }
                if listed(after, id) {
                    let k = choose|k: int| 0 <= k < after.len() && (#[trigger] after[k]).id == id;
                    if k < j {
                        assert(before[k].id == id);
                    }
                }
            }
            j = j + 1;
        }
        proof {
            assert(students@.take(i + 1).drop_last() =~= students@.take(i as int));
            assert(students@.take(i + 1).last() == students@[i as int]);
        }
        if !seen {
            let grade = score_of_student(table, &students[i], tasks);
            let ghost before = grades@;
            grades.push(grade);
            assert(grade_views(grades@) =~= grade_views(before).push(grade@));
            assert(grade_views(grades@) =~= grades_for(table@, students@.take(i + 1), tasks@));
        }
        i = i + 1;
    }
    assert(students@.take(i as int) =~= students@);
    grades
}

/// The views of a list of scores.
pub open spec fn grade_views(grades: Seq<AssignmentGrade>) -> Seq<AssignmentGradeView> {
    Seq::new(grades.len(), |i: int| grades[i]@)
}

fn student_of(member: &Member) -> (student: Student)
    ensures
        student == as_student(*member),
{
    Student {
        id: member.id,
        first_name: member.first_name.clone(),
        last_name: member.last_name.clone(),
        user_name: member.user_name.clone(),
    }
}

/// The score of a member on an assignment, if the member is a student.
pub fn get_assignment_score(table: &GradeTable, member: &Member, tasks: &Vec<TaskTests>) -> (grade:
    Option<AssignmentGrade>)
    ensures
        match grade {
            Some(g) => !member.is_instructor && g@ == grade_for(
                table@,
                as_student(*member),
                tasks@,
            ),
            None => member.is_instructor,
        },
{
    if member.is_instructor {
        None
    } else {
        let student = student_of(member);
        Some(score_of_student(table, &student, tasks))
    }
}

/// The scores on an assignment of everyone who is enrolled as a student in
/// one of its classes: one score per student, however many of the classes
/// the student is enrolled in, in the order in which the students first
/// occur among the members. Instructors have no score.
pub fn get_assignment_scores(
    table: &GradeTable,
    members: &Vec<Member>,
    tasks: &Vec<TaskTests>,
) -> (grades: Vec<AssignmentGrade>)
    ensures
        grade_views(grades@) == grades_for(table@, students_among(members@), tasks@),
{
    let mut students: Vec<Student> = Vec::new();
    let mut i: usize = 0;
    assert(members@.take(0) =~= Seq::<Member>::empty());
    while i < members.len()
        invariant
            i <= members.len(),
            students@ == students_among(members@.take(i as int)),
        decreases members.len() - i,
    {
        proof {
            assert(members@.take(i + 1).drop_last() =~= members@.take(i as int));
            assert(members@.take(i + 1).last() == members@[i as int]);
        }
        if !members[i].is_instructor {
            students.push(student_of(&members[i]));
        }
        i = i + 1;
    }
    assert(members@.take(i as int) =~= members@);
    scores_of_students(table, &students, tasks)
}

} // verus!
