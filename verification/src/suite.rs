use vstd::prelude::*;
use vstd::utf8::encode_utf8;

use crate::config::{buffer_bytes, dest_write, written, OutputDest, TestConfig};
use crate::outcome::{TestResult, TestStatus};
use crate::report::{output_test_result, result_text};
use crate::ExtelResult;

verus! {

/// A named, invocable test entry: any zero-argument callable producing the
/// entry's report. A parameterized entry is registered the same way, with a
/// callable that fans out over its inputs (see [`parameters`]).
pub struct Test<F> {
    pub test_name: &'static str,
    pub test_fn: F,
}

impl<F: Fn() -> TestStatus> Test<F> {
    /// Runs the test function and wraps its report with the entry's name.
    pub fn run_test(self) -> (result: TestResult)
        requires
            call_requires(self.test_fn, ()),
        ensures
            result.test_name == self.test_name,
            call_ensures(self.test_fn, (), result.test_result),
    {
        let status = (self.test_fn)();
        TestResult { test_name: self.test_name, test_result: status }
    }
}

/// A test set that produces a list of test results. A host that scaffolds
/// one type per registered suite implements this for each of them; a suite
/// assembled at run time is run through [`Suite::run`] directly.
pub trait RunnableTestSet {
    /// Run the set with the provided configuration and collect its results.
    fn run(cfg: TestConfig) -> Vec<TestResult>;
}

/// The suite header line: `[<name>]` on a line of its own, written before
/// any test output when a destination is active.
pub open spec fn header_text(name: Seq<char>) -> Seq<char> {
    "["@ + name + "]\n"@
}

/// The report of the first `upto` results, each formatted at its 1-based
/// position, in order.
pub open spec fn results_text(results: Seq<TestResult>, upto: int, colored: bool) -> Seq<char>
    decreases upto,
{
    if upto <= 0 {
        Seq::empty()
    } else {
        results_text(results, upto - 1, colored) + result_text(
            results[upto - 1],
            upto as nat,
            colored,
        )
    }
}

/// The whole streamed report of a run: the suite header, then one formatted
/// entry per result, in registration order.
pub open spec fn suite_text(name: Seq<char>, results: Seq<TestResult>, colored: bool) -> Seq<char> {
    header_text(name) + results_text(results, results.len() as int, colored)
}

/// The first `upto` results alone decide their part of the report.
proof fn lemma_results_text_prefix(
    rs1: Seq<TestResult>,
    rs2: Seq<TestResult>,
    upto: int,
    colored: bool,
)
    requires
        upto <= rs1.len(),
        upto <= rs2.len(),
        forall|i: int| 0 <= i < upto ==> rs1[i] == rs2[i],
    ensures
        results_text(rs1, upto, colored) == results_text(rs2, upto, colored),
    decreases upto,
{
    if upto > 0 {
        lemma_results_text_prefix(rs1, rs2, upto - 1, colored);
    }
}

/// UTF-8 encoding distributes over concatenation.
proof fn lemma_encode_utf8_concat(a: Seq<char>, b: Seq<char>)
    ensures
        encode_utf8(a + b) == encode_utf8(a) + encode_utf8(b),
    decreases a.len(),
{
    if a.len() == 0 {
        assert(a + b =~= b);
        assert(encode_utf8(a + b) =~= encode_utf8(a) + encode_utf8(b));
    } else {
        assert((a + b).drop_first() =~= a.drop_first() + b);
        lemma_encode_utf8_concat(a.drop_first(), b);
        assert(encode_utf8(a + b) =~= encode_utf8(a) + encode_utf8(b));
    }
}

/// Two streaming steps in a row amount to one with the texts joined.
proof fn lemma_written_trans(
    pre: OutputDest,
    mid: OutputDest,
    post: OutputDest,
    t1: Seq<char>,
    t2: Seq<char>,
)
    requires
        written(pre, mid, t1),
        written(mid, post, t2),
    ensures
        written(pre, post, t1 + t2),
{
    if pre is Buffer {
        lemma_encode_utf8_concat(t1, t2);
        assert(buffer_bytes(post) =~= buffer_bytes(pre) + encode_utf8(t1 + t2));
    }
}

/// An ordered collection of named test entries, executed together and
/// reported as a unit under the suite's name.
pub struct Suite<F> {
    pub suite_name: &'static str,
    pub tests: Vec<Test<F>>,
}

/// Builds a suite from its name and its entries, in registration order.
pub fn make_suite<F: Fn() -> TestStatus>(suite_name: &'static str, tests: Vec<Test<F>>) -> (suite:
    Suite<F>)
    ensures
        suite.suite_name == suite_name,
        suite.tests == tests,
{
    Suite { suite_name, tests }
}

impl<F: Fn() -> TestStatus> Suite<F> {
    /// Runs every entry strictly in registration order. Each result is
    /// streamed to the destination as soon as its entry finishes, after a
    /// header line naming the suite; the collected results come back in the
    /// same order, one per entry, regardless of the destination. The run
    /// itself never fails: failures are data in the results.
    pub fn run(self, config: &mut TestConfig) -> (results: Vec<TestResult>)
        requires
            forall|i: int|
                0 <= i < self.tests@.len() ==> call_requires(
                    (#[trigger] self.tests@[i]).test_fn,
                    (),
                ),
        ensures
            results@.len() == self.tests@.len(),
            forall|i: int|
                0 <= i < results@.len() ==> (#[trigger] results@[i]).test_name
                    == self.tests@[i].test_name && call_ensures(
                    self.tests@[i].test_fn,
                    (),
                    results@[i].test_result,
                ),
            final(config).colored == old(config).colored,
            written(
                old(config).output,
                final(config).output,
                suite_text(self.suite_name@, results@, old(config).colored),
            ),
    {
        let Suite { suite_name, tests } = self;
        let ghost entries = tests@;
        let ghost pre_config = *config;
        let colored = config.colored;

        let mut header = "[".to_owned();
        header.append(suite_name);
        header.append("]\n");
        dest_write(&mut config.output, header.as_str());

        let mut remaining = tests;
        let total_tests = remaining.len();
        let mut results: Vec<TestResult> = Vec::new();
        while remaining.len() > 0
            invariant
                entries.len() == total_tests,
                entries.len() == results@.len() + remaining@.len(),
                remaining@ == entries.skip(results@.len() as int),
                forall|i: int|
                    0 <= i < entries.len() ==> call_requires((#[trigger] entries[i]).test_fn, ()),
                forall|i: int|
                    0 <= i < results@.len() ==> (#[trigger] results@[i]).test_name
                        == entries[i].test_name && call_ensures(
                        entries[i].test_fn,
                        (),
                        results@[i].test_result,
                    ),
                config.colored == pre_config.colored,
                written(
                    pre_config.output,
                    config.output,
                    header_text(suite_name@) + results_text(
                        results@,
                        results@.len() as int,
                        colored,
                    ),
                ),
                colored == pre_config.colored,
            decreases remaining@.len(),
        {
            let ghost done = results@.len() as int;
            let ghost output_before = config.output;
            assert(remaining@[0] == entries[done]);
            let entry = remaining.remove(0);
            proof {
                assert(remaining@ =~= entries.skip(done + 1));
            }
            let result = entry.run_test();
            let test_num = results.len() + 1;
            output_test_result(&mut config.output, &result, test_num, colored);
            let ghost results_before = results@;
            results.push(result);
            proof {
                lemma_results_text_prefix(results@, results_before, done, colored);
                lemma_written_trans(
                    pre_config.output,
                    output_before,
                    config.output,
                    header_text(suite_name@) + results_text(results_before, done, colored),
                    result_text(result, (done + 1) as nat, colored),
                );
                assert(header_text(suite_name@) + results_text(results@, done + 1, colored) =~= (
                header_text(suite_name@) + results_text(results_before, done, colored))
                    + result_text(result, (done + 1) as nat, colored));
            }
        }
        results
    }
}

/// Invokes `test_fn` once per input, strictly in the inputs' order, and
/// collects the outcomes at matching positions: outcome `k` is a result of
/// `test_fn` on input `k`, and a failing input never stops later inputs.
pub fn parameters<T, F: Fn(T) -> ExtelResult>(test_fn: F, inputs: Vec<T>) -> (results: Vec<
    ExtelResult,
>)
    requires
        forall|i: int| 0 <= i < inputs@.len() ==> call_requires(test_fn, (#[trigger] inputs@[i],)),
    ensures
        results@.len() == inputs@.len(),
        forall|i: int|
            0 <= i < inputs@.len() ==> call_ensures(test_fn, (inputs@[i],), #[trigger] results@[i]),
{
    let ghost all = inputs@;
    let mut remaining = inputs;
    let mut results: Vec<ExtelResult> = Vec::new();
    while remaining.len() > 0
        invariant
            all.len() == results@.len() + remaining@.len(),
            remaining@ == all.skip(results@.len() as int),
            forall|i: int| 0 <= i < all.len() ==> call_requires(test_fn, (#[trigger] all[i],)),
            forall|i: int|
                0 <= i < results@.len() ==> call_ensures(test_fn, (all[i],), #[trigger] results@[i]),
        decreases remaining@.len(),
    {
        let ghost done = results@.len() as int;
        assert(remaining@[0] == all[done]);
        let input = remaining.remove(0);
        proof {
            assert(remaining@ =~= all.skip(done + 1));
        }
        let outcome = test_fn(input);
        results.push(outcome);
    }
    results
}

} // verus!
