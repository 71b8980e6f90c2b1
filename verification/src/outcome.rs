use vstd::prelude::*;

use crate::errors::Error;
use crate::ExtelResult;

verus! {

/// The full result of one test entry: either the outcome of a single
/// invocation, or one outcome per input of a parameterized test, in the
/// order the inputs were supplied.
#[derive(Debug, PartialEq, Eq)]
pub enum TestStatus {
    Single(ExtelResult),
    Parameterized(Vec<ExtelResult>),
}

/// What running one test entry produced: the entry's name together with its
/// report. Never mutated after creation.
#[derive(Debug, PartialEq, Eq)]
pub struct TestResult {
    pub test_name: &'static str,
    pub test_result: TestStatus,
}

/// A value that can stand as the result of a test body. Single tests return
/// one [`ExtelResult`]; parameterized tests return one per input. Both are
/// folded into a [`TestStatus`] for reporting.
pub trait GenericTestResult: Sized {
    /// The status this value stands for.
    spec fn as_status(self) -> TestStatus;

    /// Fold this value into a [`TestStatus`].
    fn get_test_result(self) -> (status: TestStatus)
        ensures
            status == self.as_status(),
    ;
}

impl GenericTestResult for ExtelResult {
    open spec fn as_status(self) -> TestStatus {
        TestStatus::Single(self)
    }

    fn get_test_result(self) -> (status: TestStatus) {
        TestStatus::Single(self)
    }
}

impl GenericTestResult for Vec<ExtelResult> {
    open spec fn as_status(self) -> TestStatus {
        TestStatus::Parameterized(self)
    }

    fn get_test_result(self) -> (status: TestStatus) {
        TestStatus::Parameterized(self)
    }
}

/// A passing outcome.
pub fn pass() -> (result: ExtelResult)
    ensures
        result == Ok::<(), Error>(()),
{
    Ok(())
}

/// A failing outcome carrying the fully rendered `message`.
pub fn fail(message: String) -> (result: ExtelResult)
    ensures
        result == Err::<(), Error>(Error::TestFailed(message)),
{
    Err(Error::TestFailed(message))
}

/// `Ok` when `condition` holds, else a `TestFailed` outcome carrying
/// `message`. The message is taken as already rendered: a caller that wants
/// the default "[<condition source>] assertion failed" text renders it with
/// [`assertion_failed_message`] first.
pub fn from_condition(condition: bool, message: String) -> (result: ExtelResult)
    ensures
        result == if condition {
            Ok::<(), Error>(())
        } else {
            Err::<(), Error>(Error::TestFailed(message))
        },
{
    if condition {
        Ok(())
    } else {
        Err(Error::TestFailed(message))
    }
}

/// The default message used when an assertion over `condition_source` (the
/// textual form of the condition) fails without an explicit message.
pub fn assertion_failed_message(condition_source: &str) -> (message: String)
    ensures
        message@ == "["@ + condition_source@ + "] assertion failed"@,
{
    let mut message = "[".to_owned();
    message.append(condition_source);
    message.append("] assertion failed");
    message
}

} // verus!
