//! Exact grades: a grade is a fraction of two machine integers, never a
//! rounded number.

use vstd::prelude::*;

verus! {

/// A non-negative fraction. A grade is a `Ratio` that is at most one.
#[derive(Clone, Copy, Debug, PartialEq, Eq, Structural)]
pub struct Ratio {
    pub numerator: u64,
    pub denominator: u64,
}

impl Ratio {
    /// The fraction is defined and lies between zero and one.
    pub open spec fn is_grade(self) -> bool {
        0 < self.denominator && self.numerator <= self.denominator
    }

    pub fn new(numerator: u64, denominator: u64) -> (r: Ratio)
        ensures
            r.numerator == numerator,
            r.denominator == denominator,
    {
        Ratio { numerator, denominator }
    }

    /// The grade zero, as `0/1`.
    pub fn zero() -> (r: Ratio)
        ensures
            r == (Ratio { numerator: 0, denominator: 1 }),
            r.is_grade(),
    {
        Ratio { numerator: 0, denominator: 1 }
    }

    pub fn check_grade(&self) -> (ok: bool)
        ensures
            ok == self.is_grade(),
    {
        0 < self.denominator && self.numerator <= self.denominator
    }
}

/// What one task brings to the score of an assignment: how many tests it
/// has, how many of them the student passed, and whether the submission was
/// late. A task without a grade has no passes.
#[derive(Clone, Copy, Debug, PartialEq, Eq, Structural)]
pub struct TaskTally {
    pub n_tests: u64,
    pub passes: u64,
    pub was_late: bool,
}

impl TaskTally {
    /// The passes of the task in half points: a late task counts each pass
    /// once, a task on time counts it twice. This is the late multiplier of
    /// one half, kept in whole numbers.
    pub open spec fn half_points(self) -> nat {
        if self.was_late {
            self.passes as nat
        } else {
            2 * self.passes as nat
        }
    }

    /// The student passed no more tests than the task has.
    pub open spec fn consistent(self) -> bool {
        self.passes <= self.n_tests
    }
}

/// The half points of all tasks together.
pub open spec fn weighted_points(tallies: Seq<TaskTally>) -> nat
    decreases tallies.len(),
{
    if tallies.len() == 0 {
        0
    } else {
        weighted_points(tallies.drop_last()) + tallies.last().half_points()
    }
}

/// The number of tests of all tasks together.
pub open spec fn total_tests(tallies: Seq<TaskTally>) -> nat
    decreases tallies.len(),
{
    if tallies.len() == 0 {
        0
    } else {
        total_tests(tallies.drop_last()) + tallies.last().n_tests as nat
    }
}

/// The score of an assignment: the mean of the task grades, each weighted by
/// the number of tests of its task and halved where the task was late. In
/// half points this is `weighted_points / (2 * total_tests)`. There is no
/// score where the assignment has no test, or where the sums leave `u64`.
pub open spec fn aggregate(tallies: Seq<TaskTally>) -> Option<Ratio> {
    if total_tests(tallies) == 0 || 2 * total_tests(tallies) > u64::MAX || weighted_points(tallies)
        > u64::MAX {
        None
    } else {
        Some(
            Ratio {
                numerator: weighted_points(tallies) as u64,
                denominator: (2 * total_tests(tallies)) as u64,
            },
        )
    }
}

/// The sums over a part of the tasks are no larger than over all of them.
proof fn lemma_sums_grow(tallies: Seq<TaskTally>, i: int)
    requires
        0 <= i <= tallies.len(),
    ensures
        weighted_points(tallies.take(i)) <= weighted_points(tallies),
        total_tests(tallies.take(i)) <= total_tests(tallies),
    decreases tallies.len(),
{
    if i == tallies.len() {
        assert(tallies.take(i) =~= tallies);
    } else {
        assert(tallies.drop_last().take(i) =~= tallies.take(i));
        lemma_sums_grow(tallies.drop_last(), i);
    }
}

/// The score never exceeds one: tasks whose passes do not exceed their tests
/// earn at most two half points per test.
pub proof fn lemma_score_at_most_one(tallies: Seq<TaskTally>)
    requires
        forall|i: int| 0 <= i < tallies.len() ==> (#[trigger] tallies[i]).consistent(),
    ensures
        weighted_points(tallies) <= 2 * total_tests(tallies),
        aggregate(tallies) is Some ==> aggregate(tallies)->0.is_grade(),
    decreases tallies.len(),
{
    if tallies.len() > 0 {
        let front = tallies.drop_last();
        assert forall|i: int| 0 <= i < front.len() implies (#[trigger] front[i]).consistent() by {
            assert(front[i] == tallies[i]);
        }
        lemma_score_at_most_one(front);
        assert(tallies.last() == tallies[tallies.len() - 1]);
    }
}

/// The late multiplier is one half and applies task by task: a late task
/// brings exactly half the points that the same task brings on time, and the
/// points of the other tasks do not change.
pub proof fn lemma_late_halves_one_task(tallies: Seq<TaskTally>, at: int)
    requires
        0 <= at < tallies.len(),
        !tallies[at].was_late,
    ensures
        ({
            let late_task = TaskTally { was_late: true, ..tallies[at] };
            let after = tallies.update(at, late_task);
            &&& 2 * late_task.half_points() == tallies[at].half_points()
            &&& weighted_points(after) + late_task.half_points() == weighted_points(tallies)
            &&& total_tests(after) == total_tests(tallies)
        }),
    decreases tallies.len(),
{
    let late_task = TaskTally { was_late: true, ..tallies[at] };
    let after = tallies.update(at, late_task);
    if at == tallies.len() - 1 {
        assert(after.drop_last() =~= tallies.drop_last());
    } else {
        assert(after.drop_last() =~= tallies.drop_last().update(at, late_task));
        assert(tallies.drop_last()[at] == tallies[at]);
        lemma_late_halves_one_task(tallies.drop_last(), at);
        assert(after.last() == tallies.last());
    }
}

/// Where every task is on time and every test is passed, the score is one;
/// where every task is late and every test is passed, it is one half.
pub proof fn lemma_full_marks(tallies: Seq<TaskTally>, all_late: bool)
    requires
        forall|i: int|
            0 <= i < tallies.len() ==> (#[trigger] tallies[i]).passes == tallies[i].n_tests
                && tallies[i].was_late == all_late,
    ensures
        !all_late ==> weighted_points(tallies) == 2 * total_tests(tallies),
        all_late ==> weighted_points(tallies) == total_tests(tallies),
    decreases tallies.len(),
{
    if tallies.len() > 0 {
        let front = tallies.drop_last();
        assert forall|i: int| 0 <= i < front.len() implies (#[trigger] front[i]).passes
            == front[i].n_tests && front[i].was_late == all_late by {
            assert(front[i] == tallies[i]);
        }
        lemma_full_marks(front, all_late);
        assert(tallies.last() == tallies[tallies.len() - 1]);
    }
}

/// The score of an assignment from the tallies of its tasks.
pub fn assignment_score(tallies: &Vec<TaskTally>) -> (score: Option<Ratio>)
    ensures
        score == aggregate(tallies@),
{
    let mut points: u64 = 0;
    let mut tests: u64 = 0;
    let mut i: usize = 0;
    assert(tallies@.take(0) =~= Seq::<TaskTally>::empty());
    while i < tallies.len()
        invariant
            i <= tallies.len(),
            points == weighted_points(tallies@.take(i as int)),
            tests == total_tests(tallies@.take(i as int)),
            2 * tests <= u64::MAX,
        decreases tallies.len() - i,
    {
        let tally = &tallies[i];
        proof {
            assert(tallies@.take(i + 1).drop_last() =~= tallies@.take(i as int));
            assert(tallies@.take(i + 1).last() == tallies@[i as int]);
            lemma_sums_grow(tallies@, i + 1);
        }
        let gained: u128 = if tally.was_late {
            tally.passes as u128
        } else {
            2 * (tally.passes as u128)
        };
        let new_points: u128 = points as u128 + gained;
        let new_tests: u128 = tests as u128 + tally.n_tests as u128;
        if new_points > u64::MAX as u128 || new_tests > (u64::MAX / 2) as u128 {
            return None;
        }
        points = new_points as u64;
        tests = new_tests as u64;
        i = i + 1;
    }
    assert(tallies@.take(i as int) =~= tallies@);
    if tests == 0 {
        None
    } else {
        Some(Ratio { numerator: points, denominator: 2 * tests })
    }
}

/// What a grade is worth on a task of `n_tests` tests, in whole tests: the
/// grade times the number of tests, rounded down. For a grade earned on
/// these very tests this is the number of tests passed.
pub open spec fn worth(grade: Ratio, n_tests: u64) -> int {
    if grade.denominator == 0 {
        0
    } else {
        (grade.numerator * n_tests) / (grade.denominator as int)
    }
}

/// A grade between zero and one is worth no more than the task has tests,
/// and a grade of `p` out of `n` is worth `p` on `n` tests.
pub proof fn lemma_worth(grade: Ratio, n_tests: u64)
    requires
        grade.is_grade(),
    ensures
        0 <= worth(grade, n_tests) <= n_tests,
        grade.denominator == n_tests ==> worth(grade, n_tests) == grade.numerator,
{
    let p = grade.numerator as int;
    let q = grade.denominator as int;
    let n = n_tests as int;
    assert(p * n <= q * n) by (nonlinear_arith)
        requires
            0 <= p <= q,
            0 <= n,
    ;
    assert((p * n) / q <= n && (p * n) / q >= 0) by (nonlinear_arith)
        requires
            0 <= p * n <= q * n,
            0 < q,
    ;
    if q == n {
        assert((p * n) / n == p) by (nonlinear_arith)
            requires
                0 < n,
        ;
    }
}

/// The tally of a task from the grade of its latest submission, if there is
/// one.
pub fn tally(n_tests: u64, graded: Option<(Ratio, bool)>) -> (t: TaskTally)
    requires
        match graded {
            Some((grade, _)) => grade.is_grade(),
            None => true,
        },
    ensures
        t == match graded {
            Some((grade, was_late)) => TaskTally {
                n_tests,
                passes: worth(grade, n_tests) as u64,
                was_late,
            },
            None => TaskTally { n_tests, passes: 0, was_late: false },
        },
        t.consistent(),
{
    match graded {
        Some((grade, was_late)) => {
            proof {
                lemma_worth(grade, n_tests);
                assert(grade.numerator * n_tests <= 0xffff_ffff_ffff_ffff * 0xffff_ffff_ffff_ffff)
                    by (nonlinear_arith)
                    requires
                        0 <= grade.numerator <= 0xffff_ffff_ffff_ffff,
                        0 <= n_tests <= 0xffff_ffff_ffff_ffff,
                ;
            }
            let product: u128 = (grade.numerator as u128) * (n_tests as u128);
            let passes = (product / (grade.denominator as u128)) as u64;
            TaskTally { n_tests, passes, was_late }
        },
        None => TaskTally { n_tests, passes: 0, was_late: false },
    }
}

} // verus!
