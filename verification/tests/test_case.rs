use test_optimization::boundary::Call;
use test_optimization::boundary::CoverageFile;
use test_optimization::boundary::Plan;
use test_optimization::boundary::TestCoverage;
use test_optimization::test_case::Test;
use test_optimization::text::CText;
use test_optimization::text::MarshalError;
use test_optimization::time::topt_UnixTime;
use test_optimization::wire::TestStatus;
use test_optimization::wire::INVALID_HANDLE;

fn text(s: &str) -> CText {
    CText::new(s).unwrap()
}

fn at(sec: u64) -> topt_UnixTime {
    topt_UnixTime { sec, nsec: 1 }
}

fn bad(position: usize) -> Result<Plan, MarshalError> {
    Err(MarshalError::EmbeddedTerminator { position })
}

const TEST: Test = Test { test_id: 40, suite_id: 30, module_id: 20, session_id: 10 };
const NO_TEST: Test = Test { test_id: INVALID_HANDLE, suite_id: 30, module_id: 20, session_id: 10 };

fn close(status: u8, skip_reason: Option<CText>) -> Plan {
    Plan::Call(Call::TestClose { test_id: 40, status, finish_time: at(6), skip_reason })
}

#[test]
fn close_carries_the_status_and_no_reason() {
    assert_eq!(TEST.close(TestStatus::Pass, at(6)), close(0, None));
    assert_eq!(TEST.close(TestStatus::Fail, at(6)), close(1, None));
    assert_eq!(TEST.close(TestStatus::Skip, at(6)), close(2, None));
}

#[test]
fn close_on_the_invalid_handle_settles() {
    assert_eq!(NO_TEST.close(TestStatus::Pass, at(6)), Plan::Settled(false));
    assert_eq!(NO_TEST.close_with_skip_reason("why", at(6)), Ok(Plan::Settled(false)));
}

#[test]
fn skip_with_a_reason_hands_the_reason_on() {
    assert_eq!(
        TEST.close_with_skip_reason("skip because yes", at(6)),
        Ok(close(2, Some(text("skip because yes"))))
    );
    assert_eq!(TEST.close_with_skip_reason(" ", at(6)), Ok(close(2, Some(text(" ")))));
}

#[test]
fn skip_with_the_empty_reason_hands_no_reason_on() {
    assert_eq!(TEST.close_with_skip_reason("", at(6)), Ok(close(2, None)));
    assert_eq!(
        TEST.close_with_skip_reason("", at(6)),
        Ok(TEST.close(TestStatus::Skip, at(6)))
    );
}

#[test]
fn skip_with_a_bad_reason_is_rejected() {
    assert_eq!(TEST.close_with_skip_reason("no\0pe", at(6)), bad(2));
    assert_eq!(TEST.close_with_skip_reason("\0", at(6)), bad(0));
    assert_eq!(NO_TEST.close_with_skip_reason("\0", at(6)), bad(0));
}

fn coverage(files: &[&str]) -> Plan {
    Plan::Call(Call::SendCodeCoverage {
        coverages: vec![TestCoverage {
            session_id: 10,
            suite_id: 30,
            test_id: 40,
            files: files
                .iter()
                .map(|name| CoverageFile { filename: text(name), bitmap: vec![] })
                .collect(),
        }],
    })
}

#[test]
fn coverage_of_one_file() {
    assert_eq!(TEST.set_coverage_data(&["file.rs"]), Ok(coverage(&["file.rs"])));
}

#[test]
fn coverage_of_three_files_is_one_batch_of_one_report() {
    let plan = TEST.set_coverage_data(&["a.rs", "dir/b.rs", "c.rs"]).unwrap();
    assert_eq!(plan, coverage(&["a.rs", "dir/b.rs", "c.rs"]));
    match plan {
        Plan::Call(Call::SendCodeCoverage { coverages }) => {
            assert_eq!(coverages.len(), 1);
            assert_eq!(coverages[0].files.len(), 3);
            assert_eq!(coverages[0].files[1].filename.as_bytes_with_nul(), b"dir/b.rs\0");
            assert!(coverages[0].files.iter().all(|file| file.bitmap.is_empty()));
            assert_eq!(coverages[0].session_id, 10);
            assert_eq!(coverages[0].suite_id, 30);
            assert_eq!(coverages[0].test_id, 40);
        }
        other => panic!("no coverage planned: {:?}", other),
    }
}

#[test]
fn coverage_keeps_the_order_and_the_repetitions_of_the_files() {
    assert_eq!(
        TEST.set_coverage_data(&["b.rs", "a.rs", "b.rs"]),
        Ok(coverage(&["b.rs", "a.rs", "b.rs"]))
    );
}

#[test]
fn coverage_without_files_is_still_submitted() {
    assert_eq!(TEST.set_coverage_data(&[]), Ok(coverage(&[])));
}

#[test]
fn coverage_rejects_the_first_bad_file_name() {
    assert_eq!(TEST.set_coverage_data(&["a.rs", "b\0.rs", "\0"]), bad(1));
    assert_eq!(TEST.set_coverage_data(&["a.rs", "b.rs", "cc\0"]), bad(2));
    assert_eq!(TEST.set_coverage_data(&["\0"]), bad(0));
}

#[test]
fn coverage_on_the_invalid_handle_settles() {
    assert_eq!(NO_TEST.set_coverage_data(&["a.rs"]), Ok(Plan::Settled(false)));
    assert_eq!(NO_TEST.set_coverage_data(&["a\0"]), bad(1));
}

#[test]
fn empty_benchmark_data_is_a_success_without_a_call() {
    assert_eq!(TEST.set_benchmark_string_data("duration", &[]), Ok(Plan::Settled(true)));
    assert_eq!(TEST.set_benchmark_number_data("duration", &[]), Ok(Plan::Settled(true)));
}

#[test]
fn empty_benchmark_data_succeeds_whatever_else_is_given() {
    assert_eq!(TEST.set_benchmark_string_data("dur\0ation", &[]), Ok(Plan::Settled(true)));
    assert_eq!(TEST.set_benchmark_number_data("\0", &[]), Ok(Plan::Settled(true)));
    assert_eq!(NO_TEST.set_benchmark_string_data("duration", &[]), Ok(Plan::Settled(true)));
    assert_eq!(NO_TEST.set_benchmark_number_data("duration", &[]), Ok(Plan::Settled(true)));
}

#[test]
fn benchmark_string_data_is_carried_in_order() {
    assert_eq!(
        TEST.set_benchmark_string_data("duration", &[("unit", "ns"), ("host", "ci-1")]),
        Ok(Plan::Call(Call::SetBenchmarkStringData {
            test_id: 40,
            measure_type: text("duration"),
            data: vec![(text("unit"), text("ns")), (text("host"), text("ci-1"))],
        }))
    );
}

#[test]
fn benchmark_number_data_is_carried_in_order() {
    assert_eq!(
        TEST.set_benchmark_number_data(
            "duration",
            &[("mean", 1.5f64.to_bits()), ("max", 2.0f64.to_bits())]
        ),
        Ok(Plan::Call(Call::SetBenchmarkNumberData {
            test_id: 40,
            measure_type: text("duration"),
            data: vec![
                (text("mean"), 0x3FF8_0000_0000_0000),
                (text("max"), 0x4000_0000_0000_0000)
            ],
        }))
    );
}

#[test]
fn benchmark_data_is_marshaled_before_the_measure_type() {
    assert_eq!(TEST.set_benchmark_string_data("\0", &[("a", "b\0")]), bad(1));
    assert_eq!(TEST.set_benchmark_string_data("\0", &[("ab\0", "\0")]), bad(2));
    assert_eq!(TEST.set_benchmark_string_data("\0", &[("a", "b"), ("c", "abc\0")]), bad(3));
    assert_eq!(TEST.set_benchmark_string_data("m\0", &[("a", "b")]), bad(1));
    assert_eq!(TEST.set_benchmark_number_data("\0", &[("a", 1), ("ab\0", 2)]), bad(2));
    assert_eq!(TEST.set_benchmark_number_data("mm\0", &[("a", 1)]), bad(2));
}

#[test]
fn benchmark_data_on_the_invalid_handle_settles_as_a_failure() {
    assert_eq!(NO_TEST.set_benchmark_string_data("m", &[("a", "b")]), Ok(Plan::Settled(false)));
    assert_eq!(NO_TEST.set_benchmark_number_data("m", &[("a", 1)]), Ok(Plan::Settled(false)));
}
