//! The result record of one graded submission: one entry per test, in test
//! order, and the number of tests that passed.

use crate::score::Ratio;
use vstd::prelude::*;

verus! {

/// How one test ended.
#[derive(Clone, Copy, Debug, PartialEq, Eq, Structural)]
pub enum Status {
    /// The output matched and the submission was on time.
    Pass,
    /// The output matched, but the submission came after the deadline.
    Late,
    /// The output did not match.
    Fail,
    /// The run did not finish within the test's time limit.
    TimedOut,
    /// The run wrote to its error stream.
    Error,
}

impl Status {
    /// The status counts towards the number of passed tests.
    pub open spec fn counts(self) -> bool {
        self == Status::Pass || self == Status::Late
    }

    /// The tag under which the status is reported to the client.
    pub open spec fn tag(self) -> Seq<char> {
        match self {
            Status::Pass => "PASS"@,
            Status::Late => "LATE"@,
            Status::Fail => "FAIL"@,
            Status::TimedOut => "TIMED OUT"@,
            Status::Error => "ERR"@,
        }
    }

    pub fn label(&self) -> (s: &'static str)
        ensures
            s@ == self.tag(),
    {
        match self {
            Status::Pass => "PASS",
            Status::Late => "LATE",
            Status::Fail => "FAIL",
            Status::TimedOut => "TIMED OUT",
            Status::Error => "ERR",
        }
    }

    /// The status that a tag names, if it names one.
    pub fn parse(tag: &str) -> (status: Option<Status>)
        ensures
            match status {
                Some(s) => s.tag() == tag@,
                None => forall|s: Status| s.tag() != tag@,
            },
    {
        let tag = tag.to_owned();
        if tag == "PASS".to_owned() {
            Some(Status::Pass)
        } else if tag == "LATE".to_owned() {
            Some(Status::Late)
        } else if tag == "FAIL".to_owned() {
            Some(Status::Fail)
        } else if tag == "TIMED OUT".to_owned() {
            Some(Status::TimedOut)
        } else if tag == "ERR".to_owned() {
            Some(Status::Error)
        } else {
            None
        }
    }

    pub fn is_counted(&self) -> (b: bool)
        ensures
            b == self.counts(),
    {
        match self {
            Status::Pass => true,
            Status::Late => true,
            _ => false,
        }
    }
}

/// What a public test discloses: what was fed in, what was expected, and what
/// the submission printed.
#[derive(Debug)]
pub struct InputOutput {
    pub input: String,
    pub expected: String,
    pub found: String,
}

pub struct InputOutputView {
    pub input: Seq<char>,
    pub expected: Seq<char>,
    pub found: Seq<char>,
}

impl View for InputOutput {
    type V = InputOutputView;

    open spec fn view(&self) -> InputOutputView {
        InputOutputView { input: self.input@, expected: self.expected@, found: self.found@ }
    }
}

/// The outcome of one test.
#[derive(Debug)]
pub struct Test {
    pub test_name: String,
    pub status: Status,
    pub input_output: Option<InputOutput>,
}

pub struct TestView {
    pub test_name: Seq<char>,
    pub status: Status,
    pub input_output: Option<InputOutputView>,
}

impl View for Test {
    type V = TestView;

    open spec fn view(&self) -> TestView {
        TestView {
            test_name: self.test_name@,
            status: self.status,
            input_output: match self.input_output {
                Some(io) => Some(io@),
                None => None,
            },
        }
    }
}

/// The name under which a test is reported: its own, or the empty text.
pub open spec fn reported_name(test_name: Option<String>) -> Seq<char> {
    match test_name {
        Some(name) => name@,
        None => Seq::empty(),
    }
}

/// The entry of a private test: no input or output is disclosed.
pub open spec fn private_entry(test_name: Option<String>, status: Status) -> TestView {
    TestView { test_name: reported_name(test_name), status, input_output: None }
}

/// The entry of a public test, with the triple it discloses.
pub open spec fn public_entry(
    test_name: Option<String>,
    status: Status,
    input: Seq<char>,
    expected: Seq<char>,
    found: Seq<char>,
) -> TestView {
    TestView {
        test_name: reported_name(test_name),
        status,
        input_output: Some(InputOutputView { input, expected, found }),
    }
}

/// The status of a matching output: `Late` after the deadline, else `Pass`.
pub open spec fn pass_status(was_late: bool) -> Status {
    if was_late {
        Status::Late
    } else {
        Status::Pass
    }
}

/// How many of the entries count as passed.
pub open spec fn passed(tests: Seq<TestView>) -> nat
    decreases tests.len(),
{
    if tests.len() == 0 {
        0
    } else {
        passed(tests.drop_last()) + if tests.last().status.counts() {
            1nat
        } else {
            0nat
        }
    }
}

/// The views of a list of entries, in order.
pub open spec fn entries(tests: Seq<Test>) -> Seq<TestView> {
    Seq::new(tests.len(), |i: int| tests[i]@)
}

pub proof fn lemma_passed_bounded(tests: Seq<TestView>)
    ensures
        passed(tests) <= tests.len(),
    decreases tests.len(),
{
    if tests.len() > 0 {
        lemma_passed_bounded(tests.drop_last());
    }
}

pub proof fn lemma_passed_push(tests: Seq<TestView>, entry: TestView)
    ensures
        passed(tests.push(entry)) == passed(tests) + if entry.status.counts() {
            1nat
        } else {
            0nat
        },
{
    assert(tests.push(entry).drop_last() =~= tests);
}

/// The grade that a list of entries earns: passed over total, or zero when
/// there is no test at all.
pub open spec fn grade_of(tests: Seq<TestView>) -> Ratio {
    if tests.len() == 0 {
        Ratio { numerator: 0, denominator: 1 }
    } else {
        Ratio { numerator: passed(tests) as u64, denominator: tests.len() as u64 }
    }
}

/// The results of one submission. The number of passes it reports is always
/// the number of its entries that count as passed.
#[derive(Debug)]
pub struct SubmissionResponse {
    tests: Vec<Test>,
    passes: usize,
}

impl View for SubmissionResponse {
    type V = Seq<TestView>;

    closed spec fn view(&self) -> Seq<TestView> {
        entries(self.tests@)
    }
}

impl Default for SubmissionResponse {
    fn default() -> (r: SubmissionResponse)
        ensures
            r@ == Seq::<TestView>::empty(),
    {
        let r = SubmissionResponse { tests: Vec::new(), passes: 0 };
        assert(r@ =~= Seq::<TestView>::empty());
        r
    }
}

impl SubmissionResponse {
    #[verifier::type_invariant]
    spec fn consistent(&self) -> bool {
        self.passes == passed(entries(self.tests@))
    }

    /// Rebuilds a record from its parts, if the pass count agrees with the
    /// entries.
    pub fn from_parts(tests: Vec<Test>, passes: usize) -> (r: Option<SubmissionResponse>)
        ensures
            r is Some <==> passes == passed(entries(tests@)),
            r is Some ==> r->0@ == entries(tests@),
    {
        let mut counted: usize = 0;
        let mut i: usize = 0;
        while i < tests.len()
            invariant
                i <= tests.len(),
                counted == passed(entries(tests@).take(i as int)),
            decreases tests.len() - i,
        {
            proof {
                let all = entries(tests@);
                lemma_passed_bounded(all.take(i as int));
                assert(all.take(i + 1) =~= all.take(i as int).push(all[i as int]));
                lemma_passed_push(all.take(i as int), all[i as int]);
            }
            if tests[i].status.is_counted() {
                counted = counted + 1;
            }
            i = i + 1;
        }
        assert(entries(tests@).take(i as int) =~= entries(tests@));
        if counted == passes {
            Some(SubmissionResponse { tests, passes })
        } else {
            None
        }
    }

    /// The entries, in the order in which they were recorded.
    pub fn tests(&self) -> (t: &Vec<Test>)
        ensures
            entries(t@) == self@,
    {
        &self.tests
    }

    /// The number of entries.
    pub fn len(&self) -> (n: usize)
        ensures
            n == self@.len(),
    {
        self.tests.len()
    }

    /// The number of entries that count as passed.
    pub fn passes(&self) -> (n: usize)
        ensures
            n == passed(self@),
    {
        proof {
            use_type_invariant(self);
        }
        self.passes
    }

    fn record(&mut self, entry: Test)
        ensures
            final(self)@ == old(self)@.push(entry@),
    {
        let mut taken = SubmissionResponse { tests: Vec::new(), passes: 0 };
        assert(entries(taken.tests@) =~= Seq::<TestView>::empty());
        core::mem::swap(self, &mut taken);
        proof {
            use_type_invariant(&taken);
            lemma_passed_push(entries(taken.tests@), entry@);
            lemma_passed_bounded(entries(taken.tests@));
        }
        let counted = entry.status.is_counted();
        let SubmissionResponse { tests: mut tests, passes } = taken;
        let ghost before = tests@;
        assert(passes <= entries(before).len());
        tests.push(entry);
        assert(entries(tests@) =~= entries(before).push(entry@));
        assert(passes < tests.len());
        let passes = if counted { passes + 1 } else { passes };
        *self = SubmissionResponse { tests, passes };
    }

    /// Records a private test whose output matched.
    pub fn pass(&mut self, test_name: Option<String>, was_late: bool)
        ensures
            final(self)@ == old(self)@.push(private_entry(test_name, pass_status(was_late))),
    {
        let status = if was_late { Status::Late } else { Status::Pass };
        self.record(Test { test_name: name_or_empty(test_name), status, input_output: None });
    }

    /// Records a public test whose output matched.
    pub fn pub_pass(
        &mut self,
        test_name: Option<String>,
        was_late: bool,
        input: String,
        expected: String,
        found: String,
    )
        ensures
            final(self)@ == old(self)@.push(
                public_entry(test_name, pass_status(was_late), input@, expected@, found@),
            ),
    {
        let status = if was_late { Status::Late } else { Status::Pass };
        self.record(
            Test {
                test_name: name_or_empty(test_name),
                status,
                input_output: Some(InputOutput { input, expected, found }),
            },
        );
    }

    /// Records a private test whose output did not match.
    pub fn fail(&mut self, test_name: Option<String>)
        ensures
            final(self)@ == old(self)@.push(private_entry(test_name, Status::Fail)),
    {
        self.record(
            Test { test_name: name_or_empty(test_name), status: Status::Fail, input_output: None },
        );
    }

    /// Records a public test whose output did not match.
    pub fn pub_fail(
        &mut self,
        test_name: Option<String>,
        input: String,
        expected: String,
        found: String,
    )
        ensures
            final(self)@ == old(self)@.push(
                public_entry(test_name, Status::Fail, input@, expected@, found@),
            ),
    {
        self.record(
            Test {
                test_name: name_or_empty(test_name),
                status: Status::Fail,
                input_output: Some(InputOutput { input, expected, found }),
            },
        );
    }

    /// Records a private test that ran out of time.
    pub fn time_out(&mut self, test_name: Option<String>)
        ensures
            final(self)@ == old(self)@.push(private_entry(test_name, Status::TimedOut)),
    {
        self.record(
            Test {
                test_name: name_or_empty(test_name),
                status: Status::TimedOut,
                input_output: None,
            },
        );
    }

    /// Records a public test that ran out of time; nothing was found.
    pub fn pub_time_out(&mut self, test_name: Option<String>, input: String, expected: String)
        ensures
            final(self)@ == old(self)@.push(
                public_entry(
                    test_name,
                    Status::TimedOut,
                    input@,
                    expected@,
                    Seq::<char>::empty(),
                ),
            ),
    {
        self.record(
            Test {
                test_name: name_or_empty(test_name),
                status: Status::TimedOut,
                input_output: Some(InputOutput { input, expected, found: String::new() }),
            },
        );
    }

    /// Records a private test whose run reported an error.
    pub fn err(&mut self, test_name: Option<String>)
        ensures
            final(self)@ == old(self)@.push(private_entry(test_name, Status::Error)),
    {
        self.record(
            Test { test_name: name_or_empty(test_name), status: Status::Error, input_output: None },
        );
    }

    /// Records a public test whose run reported an error, with the error text
    /// as what was found.
    pub fn pub_err(
        &mut self,
        test_name: Option<String>,
        input: String,
        expected: String,
        found: String,
    )
        ensures
            final(self)@ == old(self)@.push(
                public_entry(test_name, Status::Error, input@, expected@, found@),
            ),
    {
        self.record(
            Test {
                test_name: name_or_empty(test_name),
                status: Status::Error,
                input_output: Some(InputOutput { input, expected, found }),
            },
        );
    }

    /// The grade of the submission: passed tests over all tests, and zero
    /// when there is no test.
    pub fn score(&self) -> (grade: Ratio)
        ensures
            grade == grade_of(self@),
            grade.is_grade(),
    {
        proof {
            use_type_invariant(self);
            lemma_passed_bounded(entries(self.tests@));
        }
        if self.tests.len() == 0 {
            Ratio::zero()
        } else {
            Ratio::new(self.passes as u64, self.tests.len() as u64)
        }
    }
}

fn name_or_empty(test_name: Option<String>) -> (name: String)
    ensures
        name@ == reported_name(test_name),
{
    match test_name {
        Some(name) => name,
        None => String::new(),
    }
}

} // verus!
