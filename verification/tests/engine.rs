use cli_snap::{
    classify, fatal_exit_status, finalize, snapshot_file_name, CommandResult, ComparePhase, Config,
    ExecPhase, FatalError, Outcome, Record, Test, TestPlan,
};

fn plan_of(tests: Vec<(&str, Vec<&str>)>) -> TestPlan {
    TestPlan {
        tests: tests
            .into_iter()
            .map(|(id, commands)| Test {
                id: id.to_string(),
                commands: commands.into_iter().map(|c| c.to_string()).collect(),
            })
            .collect(),
        config: Config {
            snapshot_directory: "snapshots".to_string(),
        },
    }
}

fn ok_result(stdout: &str) -> CommandResult {
    CommandResult {
        stdout: stdout.to_string(),
        stderr: String::new(),
        success: true,
    }
}

fn failed_result(stderr: &str) -> CommandResult {
    CommandResult {
        stdout: String::new(),
        stderr: stderr.to_string(),
        success: false,
    }
}

#[test]
fn comparison_is_exact_on_trailing_newline() {
    let stored = "foo\n".to_string();
    let received = "foo".to_string();
    assert_eq!(classify(&stored, &received), Outcome::Mismatched);
    assert_eq!(classify(&stored, &"foo\n".to_string()), Outcome::Matched);
}

#[test]
fn first_run_with_no_snapshot_compares_against_empty() {
    let no_snapshot = String::new();
    assert_eq!(
        classify(&no_snapshot, &"hello\n".to_string()),
        Outcome::Mismatched
    );
    assert_eq!(classify(&no_snapshot, &String::new()), Outcome::Matched);
}

#[test]
fn last_command_output_wins() {
    let plan = plan_of(vec![("t", vec!["echo A", "echo B"])]);
    assert!(plan.validate());
    let mut exec = ExecPhase::begin(&plan);
    assert!(!exec.feed(&plan, ok_result("A\n")));
    assert!(!exec.feed(&plan, ok_result("B\n")));
    assert!(exec.is_done(&plan));
    let captured = exec.record.get(&"t".to_string()).expect("t was executed");
    assert_eq!(captured, "B\n");
}

#[test]
fn nonzero_exit_aborts_the_whole_run() {
    let plan = plan_of(vec![("first", vec!["false", "echo X"]), ("second", vec!["echo Y"])]);
    let mut exec = ExecPhase::begin(&plan);
    let fatal = exec.feed(&plan, failed_result("boom"));
    assert!(fatal);
    assert!(!exec.is_done(&plan));
    assert!(exec.record.get(&"first".to_string()).is_none());
    assert!(exec.record.get(&"second".to_string()).is_none());
    assert_eq!(
        fatal_exit_status(FatalError::CommandSpawnOrExecFailure),
        1
    );
}

#[test]
fn summary_counts_passed_and_failed() {
    let plan = plan_of(vec![("t1", vec!["echo ok"]), ("t2", vec!["echo new"])]);
    let mut exec = ExecPhase::begin(&plan);
    assert!(!exec.feed(&plan, ok_result("ok\n")));
    assert!(!exec.feed(&plan, ok_result("new\n")));
    let mut compare = ComparePhase::begin(&plan);
    let step1 = compare.compare_next(&plan, &exec.record, &"ok\n".to_string(), false);
    assert_eq!(step1.outcome, Outcome::Matched);
    let step2 = compare.compare_next(&plan, &exec.record, &"old\n".to_string(), false);
    assert_eq!(step2.outcome, Outcome::Mismatched);
    assert!(compare.is_done(&plan));
    let summary = finalize(&compare, &plan);
    assert_eq!(summary.total, 2);
    assert_eq!(summary.passed, 1);
    assert_eq!(summary.failed, 1);
    assert_eq!(summary.exit_status, 1);
}

#[test]
fn all_matched_exits_zero() {
    let plan = plan_of(vec![("t", vec!["echo hi"])]);
    let mut exec = ExecPhase::begin(&plan);
    assert!(!exec.feed(&plan, ok_result("hi\n")));
    let mut compare = ComparePhase::begin(&plan);
    compare.compare_next(&plan, &exec.record, &"hi\n".to_string(), false);
    let summary = finalize(&compare, &plan);
    assert_eq!(summary.total, 1);
    assert_eq!(summary.passed, 1);
    assert_eq!(summary.failed, 0);
    assert_eq!(summary.exit_status, 0);
}

#[test]
fn update_mode_writes_every_test_regardless_of_outcome() {
    let plan = plan_of(vec![("match", vec!["echo a"]), ("diff", vec!["echo b"])]);
    let mut exec = ExecPhase::begin(&plan);
    assert!(!exec.feed(&plan, ok_result("a\n")));
    assert!(!exec.feed(&plan, ok_result("b\n")));
    let mut compare = ComparePhase::begin(&plan);
    let mut writes = Vec::new();
    let step1 = compare.compare_next(&plan, &exec.record, &"a\n".to_string(), true);
    let step2 = compare.compare_next(&plan, &exec.record, &"stale\n".to_string(), true);
    for step in [step1, step2] {
        assert_ne!(step.outcome, Outcome::MissingCapturedOutput);
        assert!(step.write);
        writes.push(step.new_output);
    }
    assert_eq!(writes, vec!["a\n".to_string(), "b\n".to_string()]);
}

#[test]
fn update_then_second_run_matches() {
    let plan = plan_of(vec![("t", vec!["echo out"])]);
    let mut exec = ExecPhase::begin(&plan);
    assert!(!exec.feed(&plan, ok_result("out\n")));

    let mut first = ComparePhase::begin(&plan);
    let step = first.compare_next(&plan, &exec.record, &String::new(), true);
    assert_eq!(step.outcome, Outcome::Mismatched);
    assert!(step.write);
    let stored = step.new_output;

    let mut exec2 = ExecPhase::begin(&plan);
    assert!(!exec2.feed(&plan, ok_result("out\n")));
    let mut second = ComparePhase::begin(&plan);
    let step2 = second.compare_next(&plan, &exec2.record, &stored, false);
    assert_eq!(step2.outcome, Outcome::Matched);
    assert!(!step2.write);
    let summary = finalize(&second, &plan);
    assert_eq!(summary.exit_status, 0);
}

#[test]
fn missing_captured_output_stops_with_status_zero() {
    let plan = plan_of(vec![("t", vec!["echo x"])]);
    let record = Record::new();
    let mut compare = ComparePhase::begin(&plan);
    let step = compare.compare_next(&plan, &record, &String::new(), false);
    assert_eq!(step.outcome, Outcome::MissingCapturedOutput);
    assert!(!step.write);
    assert!(!compare.is_done(&plan));
    assert_eq!(
        fatal_exit_status(FatalError::InternalConsistencyFailure),
        0
    );
}

#[test]
fn fatal_errors_exit_nonzero_except_internal_consistency() {
    assert_eq!(fatal_exit_status(FatalError::ConfigLoadFailure), 1);
    assert_eq!(fatal_exit_status(FatalError::ConfigParseFailure), 1);
    assert_eq!(fatal_exit_status(FatalError::CommandTokenizeFailure), 1);
    assert_eq!(fatal_exit_status(FatalError::CommandSpawnOrExecFailure), 1);
    assert_eq!(fatal_exit_status(FatalError::SnapshotWriteFailure), 1);
}

#[test]
fn record_overwrites_on_repeated_id() {
    let mut record = Record::new();
    record.insert("t".to_string(), "first".to_string());
    record.insert("t".to_string(), "second".to_string());
    assert_eq!(record.get(&"t".to_string()).expect("t recorded"), "second");
    assert!(record.get(&"other".to_string()).is_none());
}

#[test]
fn snapshot_files_are_named_by_test_id() {
    assert_eq!(snapshot_file_name(&"t1".to_string()), "t1.txt");
    assert_eq!(snapshot_file_name(&String::new()), ".txt");
}

#[test]
fn plan_validation_rejects_empty_command_list() {
    let bad = plan_of(vec![("t", vec![])]);
    assert!(!bad.validate());
    let good = plan_of(vec![("t", vec!["echo x"])]);
    assert!(good.validate());
}
