//! The in-memory shape of a test report: suites that nest, and cases that
//! carry a status.

use vstd::prelude::*;

verus! {

/// Details attached to a failed case.
#[derive(Debug)]
pub struct TestFailure {
    pub message: String,
    pub text: String,
    pub failure_type: String,
}

/// Details attached to a case that raised an error.
#[derive(Debug)]
pub struct TestError {
    pub message: String,
    pub text: String,
    pub error_type: String,
}

/// Details attached to a skipped case.
#[derive(Debug)]
pub struct TestSkipped {
    pub message: String,
    pub text: String,
    pub skipped_type: String,
}

/// The outcome of one test case.
#[derive(Debug)]
pub enum TestStatus {
    Success,
    Error(TestError),
    Failure(TestFailure),
    Skipped(TestSkipped),
}

/// One test case of a report.
#[derive(Debug)]
pub struct TestCase {
    pub name: String,
    pub classname: Option<String>,
    pub status: TestStatus,
    /// Duration of the case in whole milliseconds.
    pub time_millis: u64,
}

/// A named group of test cases, which may hold further suites.
#[derive(Debug)]
pub struct TestSuite {
    pub name: String,
    pub cases: Vec<TestCase>,
    pub suites: Vec<TestSuite>,
}

fn copy_opt_string(s: &Option<String>) -> (r: Option<String>)
    ensures
        r == *s,
{
    match s {
        Some(v) => Some(v.clone()),
        None => None,
    }
}

impl TestFailure {
    /// A field-by-field copy.
    pub fn duplicate(&self) -> (r: TestFailure)
        ensures
            r == *self,
    {
        TestFailure {
            message: self.message.clone(),
            text: self.text.clone(),
            failure_type: self.failure_type.clone(),
        }
    }
}

impl TestError {
    /// A field-by-field copy.
    pub fn duplicate(&self) -> (r: TestError)
        ensures
            r == *self,
    {
        TestError {
            message: self.message.clone(),
            text: self.text.clone(),
            error_type: self.error_type.clone(),
        }
    }
}

impl TestSkipped {
    /// A field-by-field copy.
    pub fn duplicate(&self) -> (r: TestSkipped)
        ensures
            r == *self,
    {
        TestSkipped {
            message: self.message.clone(),
            text: self.text.clone(),
            skipped_type: self.skipped_type.clone(),
        }
    }
}

impl TestStatus {
    /// A copy of the status, payload included.
    pub fn duplicate(&self) -> (r: TestStatus)
        ensures
            r == *self,
    {
        match self {
            TestStatus::Success => TestStatus::Success,
            TestStatus::Error(e) => TestStatus::Error(e.duplicate()),
            TestStatus::Failure(f) => TestStatus::Failure(f.duplicate()),
            TestStatus::Skipped(s) => TestStatus::Skipped(s.duplicate()),
        }
    }
}

impl TestCase {
    /// A copy of the case with all of its fields.
    pub fn duplicate(&self) -> (r: TestCase)
        ensures
            r == *self,
    {
        TestCase {
            name: self.name.clone(),
            classname: copy_opt_string(&self.classname),
            status: self.status.duplicate(),
            time_millis: self.time_millis,
        }
    }
}

} // verus!
