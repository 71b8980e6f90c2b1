use extel::{
    fail, format_test_result, make_suite, output_test_result, pass, Error, ExtelResult,
    GenericTestResult, OutputDest, Test, TestConfig, TestResult, TestStatus,
};

fn always_succeed() -> ExtelResult {
    pass()
}

fn always_fail() -> ExtelResult {
    fail(String::from("this test failed?"))
}

fn always_succeed_entry() -> TestStatus {
    always_succeed().get_test_result()
}

fn always_fail_entry() -> TestStatus {
    always_fail().get_test_result()
}

fn buffer_contents(config: TestConfig) -> String {
    match config.output {
        OutputDest::Buffer(bytes) => String::from_utf8_lossy(&bytes).into_owned(),
        _ => panic!("expected a buffer destination"),
    }
}

#[test]
fn init_test_suite_basic() {
    let suite = make_suite(
        "BasicTestSet",
        vec![
            Test {
                test_name: "always_succeed",
                test_fn: always_succeed_entry as fn() -> TestStatus,
            },
            Test {
                test_name: "always_fail",
                test_fn: always_fail_entry as fn() -> TestStatus,
            },
        ],
    );

    let mut config = TestConfig::default()
        .output(OutputDest::Buffer(Vec::new()))
        .colored(false);
    let results = suite.run(&mut config);

    assert_eq!(results.len(), 2);
    assert_eq!(
        buffer_contents(config),
        "[BasicTestSet]\n\
         Test #1 (always_succeed) ... ok\n\
         Test #2 (always_fail) ... FAILED\n  [x] this test failed?\n"
    );
}

#[test]
fn macros_init_test_suite_basic() {
    let suite = make_suite(
        "BasicTestSet",
        vec![
            Test {
                test_name: "always_succeed",
                test_fn: always_succeed_entry as fn() -> TestStatus,
            },
            Test {
                test_name: "always_fail",
                test_fn: always_fail_entry as fn() -> TestStatus,
            },
        ],
    );

    let mut config = TestConfig::default()
        .output(OutputDest::Buffer(Vec::new()))
        .colored(false);
    let results = suite.run(&mut config);

    assert!(matches!(
        results[0].test_result,
        TestStatus::Single(Ok(()))
    ));
    assert!(matches!(
        results[1].test_result,
        TestStatus::Single(Err(Error::TestFailed(_)))
    ));
    assert_eq!(
        buffer_contents(config),
        "[BasicTestSet]\n\
         Test #1 (always_succeed) ... ok\n\
         Test #2 (always_fail) ... FAILED\n  [x] this test failed?\n"
    );
}

#[test]
fn suite_results_keep_registration_order() {
    let suite = make_suite(
        "OrderedSet",
        vec![
            Test {
                test_name: "first",
                test_fn: always_succeed_entry as fn() -> TestStatus,
            },
            Test {
                test_name: "second",
                test_fn: always_fail_entry as fn() -> TestStatus,
            },
            Test {
                test_name: "third",
                test_fn: always_succeed_entry as fn() -> TestStatus,
            },
        ],
    );

    let mut config = TestConfig::default().output(OutputDest::Disabled);
    let results = suite.run(&mut config);

    assert_eq!(results.len(), 3);
    assert_eq!(results[0].test_name, "first");
    assert_eq!(results[1].test_name, "second");
    assert_eq!(results[2].test_name, "third");
    assert!(matches!(results[0].test_result, TestStatus::Single(Ok(()))));
    assert!(matches!(
        results[1].test_result,
        TestStatus::Single(Err(Error::TestFailed(_)))
    ));
}

#[test]
fn write_test_output_no_color() {
    let ok_test = TestResult {
        test_name: "this_test_passes",
        test_result: TestStatus::Single(Ok(())),
    };

    let fail_test = TestResult {
        test_name: "this_test_fails",
        test_result: TestStatus::Single(Err(Error::TestFailed(format!(
            "test failed after {}",
            ok_test.test_name
        )))),
    };

    let mut ok_dest = OutputDest::Buffer(Vec::new());
    let mut fail_dest = OutputDest::Buffer(Vec::new());

    output_test_result(&mut ok_dest, &ok_test, 1, false);
    output_test_result(&mut fail_dest, &fail_test, 2, false);

    let OutputDest::Buffer(ok_bytes) = ok_dest else {
        panic!("expected a buffer destination");
    };
    let OutputDest::Buffer(fail_bytes) = fail_dest else {
        panic!("expected a buffer destination");
    };

    assert_eq!(
        String::from_utf8_lossy(&ok_bytes),
        "Test #1 (this_test_passes) ... ok\n"
    );
    assert_eq!(
        String::from_utf8_lossy(&fail_bytes),
        "Test #2 (this_test_fails) ... FAILED\n  [x] test failed after this_test_passes\n"
    );
}

#[test]
fn write_test_output_with_color() {
    let ok_test = TestResult {
        test_name: "this_test_passes",
        test_result: TestStatus::Single(Ok(())),
    };

    let fail_test = TestResult {
        test_name: "this_test_fails",
        test_result: TestStatus::Single(Err(Error::TestFailed(format!(
            "test failed after {}",
            ok_test.test_name
        )))),
    };

    let mut ok_dest = OutputDest::Buffer(Vec::new());
    let mut fail_dest = OutputDest::Buffer(Vec::new());

    output_test_result(&mut ok_dest, &ok_test, 1, true);
    output_test_result(&mut fail_dest, &fail_test, 2, true);

    let OutputDest::Buffer(ok_bytes) = ok_dest else {
        panic!("expected a buffer destination");
    };
    let OutputDest::Buffer(fail_bytes) = fail_dest else {
        panic!("expected a buffer destination");
    };

    assert_eq!(
        String::from_utf8_lossy(&ok_bytes),
        "Test #1 (this_test_passes) ... \x1b[32mok\x1b[0m\n"
    );
    assert_eq!(
        String::from_utf8_lossy(&fail_bytes),
        "Test #2 (this_test_fails) ... \x1b[31mFAILED\x1b[0m\n  [x] test failed after this_test_passes\n"
    );
}

#[test]
fn format_single_results_exactly() {
    let ok_test = TestResult {
        test_name: "sample",
        test_result: TestStatus::Single(Ok(())),
    };
    assert_eq!(
        format_test_result(&ok_test, 1, false),
        "Test #1 (sample) ... ok\n"
    );

    let fail_test = TestResult {
        test_name: "sample",
        test_result: TestStatus::Single(Err(Error::TestFailed(String::from("bad")))),
    };
    assert_eq!(
        format_test_result(&fail_test, 2, false),
        "Test #2 (sample) ... FAILED\n  [x] bad\n"
    );
}

#[test]
fn format_parameterized_result_lines() {
    let mixed = TestResult {
        test_name: "fanout",
        test_result: TestStatus::Parameterized(vec![
            Ok(()),
            Err(Error::TestFailed(String::from("nope"))),
            Ok(()),
        ]),
    };
    assert_eq!(
        format_test_result(&mixed, 3, false),
        "Test #3.0 (fanout) ... ok\n\
         Test #3.1 (fanout) ... FAILED\n  [x] nope\n\
         Test #3.2 (fanout) ... ok\n"
    );
}

#[test]
fn format_multi_digit_ordinals() {
    let ok_test = TestResult {
        test_name: "late",
        test_result: TestStatus::Single(Ok(())),
    };
    assert_eq!(
        format_test_result(&ok_test, 12, false),
        "Test #12 (late) ... ok\n"
    );
}

#[test]
fn run_test_wraps_name_and_report() {
    let entry = Test {
        test_name: "lone",
        test_fn: always_succeed_entry as fn() -> TestStatus,
    };
    let result = entry.run_test();
    assert_eq!(result.test_name, "lone");
    assert!(matches!(result.test_result, TestStatus::Single(Ok(()))));
}

#[test]
fn disabled_destination_still_collects_results() {
    let suite = make_suite(
        "QuietSet",
        vec![Test {
            test_name: "only",
            test_fn: always_fail_entry as fn() -> TestStatus,
        }],
    );
    let mut config = TestConfig::default().output(OutputDest::Disabled).colored(false);
    let results = suite.run(&mut config);
    assert_eq!(results.len(), 1);
    assert!(matches!(
        results[0].test_result,
        TestStatus::Single(Err(Error::TestFailed(_)))
    ));
    assert!(matches!(config.output, OutputDest::Disabled));
}

#[test]
fn config_builders_set_fields() {
    let config = TestConfig::default();
    assert!(matches!(config.output, OutputDest::Stdout));
    assert!(config.colored);

    let config = TestConfig::default()
        .output(OutputDest::Buffer(Vec::new()))
        .colored(false);
    assert!(matches!(config.output, OutputDest::Buffer(_)));
    assert!(!config.colored);
}
