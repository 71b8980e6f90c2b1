use vstd::prelude::*;

use crate::config::{dest_write, written, OutputDest};
use crate::decimal::{dec_str, usize_to_string};
use crate::errors::{error_text, Error};
use crate::outcome::{TestResult, TestStatus};

verus! {

/// The escape sequence opening the verdict token, when color is enabled:
/// green for a success, red for a failure.
pub open spec fn color_start(ok: bool, colored: bool) -> Seq<char> {
    if !colored {
        Seq::empty()
    } else if ok {
        "\x1b[32m"@
    } else {
        "\x1b[31m"@
    }
}

/// The escape sequence closing the verdict token, when color is enabled.
pub open spec fn color_end(colored: bool) -> Seq<char> {
    if colored {
        "\x1b[0m"@
    } else {
        Seq::empty()
    }
}

/// One report line (two for a failure): `head` is the "Test #<ordinal>"
/// prefix, already rendered. A success reads `<head> (<name>) ... ok`; a
/// failure reads `<head> (<name>) ... FAILED` followed by the indented
/// message line `  [x] <message>`.
pub open spec fn outcome_text(
    name: Seq<char>,
    head: Seq<char>,
    outcome: Result<(), Error>,
    colored: bool,
) -> Seq<char> {
    match outcome {
        Ok(_) => head + " ("@ + name + ") ... "@ + color_start(true, colored) + "ok"@ + color_end(
            colored,
        ) + "\n"@,
        Err(e) => head + " ("@ + name + ") ... "@ + color_start(false, colored) + "FAILED"@
            + color_end(colored) + "\n  [x] "@ + error_text(e) + "\n"@,
    }
}

/// The head of a report line: `Test #<ordinal>`, with `.<sub>` appended for
/// an outcome of a parameterized report.
pub open spec fn head_text(ordinal: nat, sub: Option<nat>) -> Seq<char> {
    match sub {
        Option::None => "Test #"@ + dec_str(ordinal),
        Option::Some(index) => "Test #"@ + dec_str(ordinal) + "."@ + dec_str(index),
    }
}

/// The first `upto` lines of a parameterized report: one line per outcome,
/// in input order, each with sub-ordinal `<ordinal>.<index>`. Sub-ordinals
/// count from zero for every outcome kind.
pub open spec fn param_text(
    name: Seq<char>,
    ordinal: nat,
    outcomes: Seq<Result<(), Error>>,
    upto: int,
    colored: bool,
) -> Seq<char>
    decreases upto,
{
    if upto <= 0 {
        Seq::empty()
    } else {
        param_text(name, ordinal, outcomes, upto - 1, colored) + outcome_text(
            name,
            head_text(ordinal, Option::Some((upto - 1) as nat)),
            outcomes[upto - 1],
            colored,
        )
    }
}

/// The full formatted text for one test result at 1-based position
/// `ordinal`: one entry for a single report, one per outcome for a
/// parameterized report.
pub open spec fn result_text(result: TestResult, ordinal: nat, colored: bool) -> Seq<char> {
    match result.test_result {
        TestStatus::Single(outcome) => outcome_text(
            result.test_name@,
            head_text(ordinal, Option::None),
            outcome,
            colored,
        ),
        TestStatus::Parameterized(outcomes) => param_text(
            result.test_name@,
            ordinal,
            outcomes@,
            outcomes@.len() as int,
            colored,
        ),
    }
}

/// Renders one report line (two for a failure) for a single outcome.
fn format_outcome(name: &str, head: &str, outcome: &Result<(), Error>, colored: bool) -> (text:
    String)
    ensures
        text@ == outcome_text(name@, head@, *outcome, colored),
{
    let mut text = head.to_owned();
    text.append(" (");
    text.append(name);
    text.append(") ... ");
    match outcome {
        Ok(_) => {
            if colored {
                text.append("\x1b[32m");
            }
            text.append("ok");
            if colored {
                text.append("\x1b[0m");
            }
            text.append("\n");
        },
        Err(e) => {
            if colored {
                text.append("\x1b[31m");
            }
            text.append("FAILED");
            if colored {
                text.append("\x1b[0m");
            }
            text.append("\n  [x] ");
            let message = e.message();
            text.append(message.as_str());
            text.append("\n");
        },
    }
    proof {
        assert(text@ =~= outcome_text(name@, head@, *outcome, colored));
    }
    text
}

/// Renders the head of a report line for position `ordinal`, with the given
/// sub-ordinal for an outcome of a parameterized report.
fn format_head(ordinal: usize, sub: Option<usize>) -> (text: String)
    ensures
        text@ == head_text(
            ordinal as nat,
            match sub {
                Option::None => Option::None,
                Option::Some(index) => Option::Some(index as nat),
            },
        ),
{
    let mut text = "Test #".to_owned();
    let ordinal_text = usize_to_string(ordinal);
    text.append(ordinal_text.as_str());
    match sub {
        Option::None => {},
        Option::Some(index) => {
            text.append(".");
            let index_text = usize_to_string(index);
            text.append(index_text.as_str());
        },
    }
    text
}

/// Pure formatter: the full report text for `result` at 1-based position
/// `test_num`, with or without ANSI color.
pub fn format_test_result(result: &TestResult, test_num: usize, colored: bool) -> (text: String)
    ensures
        text@ == result_text(*result, test_num as nat, colored),
{
    match &result.test_result {
        TestStatus::Single(outcome) => {
            let head = format_head(test_num, Option::None);
            format_outcome(result.test_name, head.as_str(), outcome, colored)
        },
        TestStatus::Parameterized(outcomes) => {
            let mut text = String::new();
            let mut i: usize = 0;
            while i < outcomes.len()
                invariant
                    i <= outcomes@.len(),
                    text@ == param_text(
                        result.test_name@,
                        test_num as nat,
                        outcomes@,
                        i as int,
                        colored,
                    ),
                decreases outcomes@.len() - i,
            {
                let head = format_head(test_num, Option::Some(i));
                let line = format_outcome(result.test_name, head.as_str(), &outcomes[i], colored);
                text.append(line.as_str());
                i = i + 1;
            }
            text
        },
    }
}

/// Formats `result` and streams it to the destination. Public so that a host
/// driving its own loop can reuse the streaming step; a whole suite is
/// usually run through [`Suite::run`](crate::suite::Suite::run) instead.
pub fn output_test_result(dest: &mut OutputDest, result: &TestResult, test_num: usize, colored:
    bool)
    ensures
        written(*old(dest), *final(dest), result_text(*result, test_num as nat, colored)),
{
    let text = format_test_result(result, test_num, colored);
    dest_write(dest, text.as_str());
}

} // verus!
