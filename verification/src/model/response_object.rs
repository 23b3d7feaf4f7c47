//! A plain list of test outcomes, by test name.

use vstd::prelude::*;

verus! {

/// How a test ended.
#[derive(Debug)]
pub enum TestStatus {
    Pass,
    Fail,
    /// A failed public test, with what it discloses.
    PubFail { input: String, expected: String, found: String },
    TimeOut,
    /// A run that reported an error, with the error text.
    Error(String),
}

#[derive(Debug)]
pub struct ResponseObject {
    tests: Vec<(String, TestStatus)>,
}

impl View for ResponseObject {
    type V = Seq<(String, TestStatus)>;

    closed spec fn view(&self) -> Seq<(String, TestStatus)> {
        self.tests@
    }
}

impl Default for ResponseObject {
    fn default() -> (r: ResponseObject)
        ensures
            r@ == Seq::<(String, TestStatus)>::empty(),
    {
        ResponseObject { tests: Vec::new() }
    }
}

impl ResponseObject {
    /// The outcomes, in the order in which they were recorded.
    pub fn tests(&self) -> (tests: &Vec<(String, TestStatus)>)
        ensures
            tests@ == self@,
    {
        &self.tests
    }

    pub fn pass(&mut self, test_name: String)
        ensures
            final(self)@ == old(self)@.push((test_name, TestStatus::Pass)),
    {
        self.tests.push((test_name, TestStatus::Pass));
    }

    pub fn fail(&mut self, test_name: String)
        ensures
            final(self)@ == old(self)@.push((test_name, TestStatus::Fail)),
    {
        self.tests.push((test_name, TestStatus::Fail));
    }

    pub fn time_out(&mut self, test_name: String)
        ensures
            final(self)@ == old(self)@.push((test_name, TestStatus::TimeOut)),
    {
        self.tests.push((test_name, TestStatus::TimeOut));
    }

    pub fn pub_fail(&mut self, test_name: String, input: String, expected: String, found: String)
        ensures
            final(self)@ == old(self)@.push(
                (test_name, TestStatus::PubFail { input, expected, found }),
            ),
    {
        self.tests.push((test_name, TestStatus::PubFail { input, expected, found }));
    }

    pub fn err(&mut self, test_name: String, error_msg: String)
        ensures
            final(self)@ == old(self)@.push((test_name, TestStatus::Error(error_msg))),
    {
        self.tests.push((test_name, TestStatus::Error(error_msg)));
    }
}

} // verus!
