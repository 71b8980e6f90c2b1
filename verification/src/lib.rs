//! A minimal test-orchestration engine for stateless tests, aimed at
//! exercising external executables. A suite is an ordered list of named test
//! entries; running it yields one [`TestResult`] per entry, in registration
//! order, and streams a formatted report to a configurable destination.
//! A shell-like command template can be turned into a structured
//! [`Invocation`](command::Invocation) for a process-spawning host to run.

use vstd::prelude::*;

pub mod command;
pub mod config;
pub mod decimal;
pub mod errors;
pub mod outcome;
pub mod report;
pub mod suite;

pub use command::Invocation;
pub use config::{OutputDest, TestConfig};
pub use errors::Error;
pub use outcome::{pass, fail, from_condition, assertion_failed_message};
pub use outcome::{GenericTestResult, TestResult, TestStatus};
pub use report::{format_test_result, output_test_result};
pub use suite::{make_suite, parameters, RunnableTestSet, Suite, Test};

verus! {

/// The return type of a test body: success, or an error carrying the
/// failure's rendered message.
pub type ExtelResult = Result<(), Error>;

} // verus!
