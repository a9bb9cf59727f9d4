//! The test: a single test case under a suite, with its outcome, its
//! coverage and its benchmark measurements.

use crate::boundary::number_pairs_view;
use crate::boundary::planned_view;
use crate::boundary::text_pairs_view;
use crate::boundary::Call;
use crate::boundary::CallView;
use crate::boundary::CoverageFile;
use crate::boundary::CoverageFileView;
use crate::boundary::Plan;
use crate::boundary::PlanView;
use crate::boundary::TestCoverage;
use crate::boundary::TestCoverageView;
use crate::entity::error_plan;
use crate::entity::guarded;
use crate::entity::number_tag_plan;
use crate::entity::plan_error;
use crate::entity::plan_guarded;
use crate::entity::plan_number_tag;
use crate::entity::plan_source;
use crate::entity::plan_string_tag;
use crate::entity::source_plan;
use crate::entity::string_tag_plan;
use crate::suite::TestSuite;
use crate::text::lemma_marshal_all_prefix_error;
use crate::text::lemma_marshal_all_step;
use crate::text::marshal_all;
use crate::text::marshal_text;
use crate::text::CText;
use crate::text::MarshalError;
use crate::time::topt_UnixTime;
use crate::wire::EntityKind;
use crate::wire::SourceKind;
use crate::wire::TestStatus;
use vstd::prelude::*;

verus! {

/// A test, by its handle and the handles of its suite, module and session.
/// The parents' handles are a way back and nothing more.
#[derive(Debug, Clone, Copy, PartialEq, Eq, Structural)]
pub struct Test {
    pub test_id: u64,
    pub suite_id: u64,
    pub module_id: u64,
    pub session_id: u64,
}

/// The plan for closing a test with a status and, where there is one, a
/// marshaled reason.
pub open spec fn test_close_plan(
    test_id: u64,
    status: TestStatus,
    finish_time: topt_UnixTime,
    skip_reason: Option<Seq<u8>>,
) -> PlanView {
    guarded(
        test_id,
        CallView::TestClose { test_id, status: status.spec_code(), finish_time, skip_reason },
    )
}

/// The plan for closing a test as skipped. An empty reason is no reason: it
/// is never handed to the engine.
pub open spec fn skip_plan(test_id: u64, skip_reason: Seq<char>, finish_time: topt_UnixTime) -> Result<
    PlanView,
    MarshalError,
> {
    if skip_reason.len() == 0 {
        Ok(test_close_plan(test_id, TestStatus::Skip, finish_time, None))
    } else {
        match marshal_text(skip_reason) {
            Err(e) => Err(e),
            Ok(reason) => Ok(test_close_plan(test_id, TestStatus::Skip, finish_time, Some(reason))),
        }
    }
}

/// Texts seen as their characters.
pub open spec fn texts_view(texts: Seq<&str>) -> Seq<Seq<char>> {
    texts.map_values(|t: &str| t@)
}

/// Pairs of texts seen as their characters.
pub open spec fn text_pairs_chars(pairs: Seq<(&str, &str)>) -> Seq<(Seq<char>, Seq<char>)> {
    pairs.map_values(|p: (&str, &str)| (p.0@, p.1@))
}

/// Pairs of a text and a number, with each text seen as its characters.
pub open spec fn number_pairs_chars(pairs: Seq<(&str, u64)>) -> Seq<(Seq<char>, u64)> {
    pairs.map_values(|p: (&str, u64)| (p.0@, p.1))
}

/// Coverage files seen through their views.
pub open spec fn coverage_files_view(files: Seq<CoverageFile>) -> Seq<CoverageFileView> {
    files.map_values(|f: CoverageFile| f@)
}

/// How one file name is marshaled into a coverage record: the name, and an
/// empty bitmap.
pub open spec fn coverage_file_marshaler() -> spec_fn(Seq<char>) -> Result<
    CoverageFileView,
    MarshalError,
> {
    |name: Seq<char>|
        match marshal_text(name) {
            Err(e) => Err(e),
            Ok(filename) => Ok(CoverageFileView { filename, bitmap: Seq::empty() }),
        }
}

/// How one pair of a key and a text value is marshaled: the key first.
pub open spec fn text_pair_marshaler() -> spec_fn((Seq<char>, Seq<char>)) -> Result<
    (Seq<u8>, Seq<u8>),
    MarshalError,
> {
    |pair: (Seq<char>, Seq<char>)|
        match (marshal_text(pair.0), marshal_text(pair.1)) {
            (Err(e), _) => Err(e),
            (_, Err(e)) => Err(e),
            (Ok(key), Ok(value)) => Ok((key, value)),
        }
}

/// How one pair of a key and a number is marshaled.
pub open spec fn number_pair_marshaler() -> spec_fn((Seq<char>, u64)) -> Result<
    (Seq<u8>, u64),
    MarshalError,
> {
    |pair: (Seq<char>, u64)|
        match marshal_text(pair.0) {
            Err(e) => Err(e),
            Ok(key) => Ok((key, pair.1)),
        }
}

/// The plan for submitting the coverage of a test: one batch of one report,
/// addressed by the three handles, that holds one record for each file name
/// in order.
pub open spec fn coverage_plan(
    session_id: u64,
    suite_id: u64,
    test_id: u64,
    files: Seq<Seq<char>>,
) -> Result<PlanView, MarshalError> {
    match marshal_all(files, coverage_file_marshaler()) {
        Err(e) => Err(e),
        Ok(files) => Ok(
            guarded(
                test_id,
                CallView::SendCodeCoverage {
                    coverages: seq![TestCoverageView { session_id, suite_id, test_id, files }],
                },
            ),
        ),
    }
}

/// The plan for submitting text-valued benchmark data. Empty data settles
/// as a success without a call, whatever else is given. Else the pairs are
/// marshaled in order, then the measure type.
pub open spec fn benchmark_string_plan(
    test_id: u64,
    measure_type: Seq<char>,
    data: Seq<(Seq<char>, Seq<char>)>,
) -> Result<PlanView, MarshalError> {
    if data.len() == 0 {
        Ok(PlanView::Settled(true))
    } else {
        match (marshal_all(data, text_pair_marshaler()), marshal_text(measure_type)) {
            (Err(e), _) => Err(e),
            (_, Err(e)) => Err(e),
            (Ok(data), Ok(measure_type)) => Ok(
                guarded(test_id, CallView::SetBenchmarkStringData { test_id, measure_type, data }),
            ),
        }
    }
}

/// The plan for submitting number-valued benchmark data. Empty data settles
/// as a success without a call, whatever else is given. Else the pairs are
/// marshaled in order, then the measure type.
pub open spec fn benchmark_number_plan(
    test_id: u64,
    measure_type: Seq<char>,
    data: Seq<(Seq<char>, u64)>,
) -> Result<PlanView, MarshalError> {
    if data.len() == 0 {
        Ok(PlanView::Settled(true))
    } else {
        match (marshal_all(data, number_pair_marshaler()), marshal_text(measure_type)) {
            (Err(e), _) => Err(e),
            (_, Err(e)) => Err(e),
            (Ok(data), Ok(measure_type)) => Ok(
                guarded(test_id, CallView::SetBenchmarkNumberData { test_id, measure_type, data }),
            ),
        }
    }
}

impl Test {
    /// The suite of the test.
    pub open spec fn suite(&self) -> TestSuite {
        TestSuite { suite_id: self.suite_id, module_id: self.module_id, session_id: self.session_id }
    }

    /// The suite of the test.
    pub fn get_suite(&self) -> (suite: TestSuite)
        ensures
            suite == self.suite(),
    {
        TestSuite { suite_id: self.suite_id, module_id: self.module_id, session_id: self.session_id }
    }

    /// Plans setting a text tag on the test.
    pub fn set_string_tag(&self, key: &str, value: &str) -> (r: Result<Plan, MarshalError>)
        ensures
            planned_view(r) == string_tag_plan(EntityKind::Test, self.test_id, key@, value@),
    {
        plan_string_tag(EntityKind::Test, self.test_id, key, value)
    }

    /// Plans setting a numeric tag on the test. The number is given as the
    /// bits of its 64-bit floating-point form.
    pub fn set_number_tag(&self, key: &str, value_bits: u64) -> (r: Result<Plan, MarshalError>)
        ensures
            planned_view(r) == number_tag_plan(EntityKind::Test, self.test_id, key@, value_bits),
    {
        plan_number_tag(EntityKind::Test, self.test_id, key, value_bits)
    }

    /// Plans attaching error information to the test.
    pub fn set_error_info(&self, error_type: &str, error_message: &str, error_stacktrace: &str) -> (r:
        Result<Plan, MarshalError>)
        ensures
            planned_view(r) == error_plan(
                EntityKind::Test,
                self.test_id,
                error_type@,
                error_message@,
                error_stacktrace@,
            ),
    {
        plan_error(EntityKind::Test, self.test_id, error_type, error_message, error_stacktrace)
    }

    /// Plans setting the source location of the test. Either line bound may
    /// be absent.
    pub fn set_test_source(&self, file: &str, start_line: Option<i32>, end_line: Option<i32>) -> (r:
        Result<Plan, MarshalError>)
        ensures
            planned_view(r) == source_plan(
                SourceKind::Test,
                self.test_id,
                file@,
                start_line,
                end_line,
            ),
    {
        plan_source(SourceKind::Test, self.test_id, file, start_line, end_line)
    }

    /// Plans closing the test with its outcome and no reason.
    pub fn close(&self, status: TestStatus, finish_time: topt_UnixTime) -> (plan: Plan)
        ensures
            plan@ == test_close_plan(self.test_id, status, finish_time, None),
    {
        plan_guarded(
            self.test_id,
            Call::TestClose {
                test_id: self.test_id,
                status: status.code(),
                finish_time,
                skip_reason: None,
            },
        )
    }

    /// Plans closing the test as skipped, with the reason where it is not
    /// empty.
    pub fn close_with_skip_reason(&self, skip_reason: &str, finish_time: topt_UnixTime) -> (r: Result<
        Plan,
        MarshalError,
    >)
        ensures
            planned_view(r) == skip_plan(self.test_id, skip_reason@, finish_time),
    {
        if !skip_reason.is_empty() {
            let reason = match CText::new(skip_reason) {
                Ok(text) => text,
                Err(e) => {
                    return Err(e);
                },
            };
            Ok(
                plan_guarded(
                    self.test_id,
                    Call::TestClose {
                        test_id: self.test_id,
                        status: TestStatus::Skip.code(),
                        finish_time,
                        skip_reason: Some(reason),
                    },
                ),
            )
        } else {
            Ok(self.close(TestStatus::Skip, finish_time))
        }
    }

    /// Plans submitting the coverage of the test: the names of the files it
    /// touched, each with an empty bitmap, as one batch of one report.
    pub fn set_coverage_data(&self, files: &[&str]) -> (r: Result<Plan, MarshalError>)
        ensures
            planned_view(r) == coverage_plan(
                self.session_id,
                self.suite_id,
                self.test_id,
                texts_view(files@),
            ),
    {
        let ghost names = texts_view(files@);
        let mut records: Vec<CoverageFile> = Vec::new();
        let mut i: usize = 0;
        proof {
            assert(names.take(0).len() == 0);
            assert(coverage_files_view(records@) =~= Seq::empty());
        }
        while i < files.len()
            invariant
                0 <= i <= files.len(),
                names == texts_view(files@),
                marshal_all(names.take(i as int), coverage_file_marshaler()) == Ok::<
                    Seq<CoverageFileView>,
                    MarshalError,
                >(coverage_files_view(records@)),
            decreases files.len() - i,
        {
            proof {
                lemma_marshal_all_step(names, coverage_file_marshaler(), i as int);
            }
            let ghost before = coverage_files_view(records@);
            match CText::new(files[i]) {
                Ok(filename) => {
                    let record = CoverageFile { filename, bitmap: Vec::new() };
                    proof {
                        assert(record@ == CoverageFileView {
                            filename: record.filename@,
                            bitmap: Seq::<u8>::empty(),
                        });
                    }
                    records.push(record);
                    proof {
                        assert(coverage_files_view(records@) =~= before.push(record@));
                    }
                },
                Err(e) => {
                    proof {
                        lemma_marshal_all_prefix_error(
                            names,
                            coverage_file_marshaler(),
                            i as int + 1,
                        );
                    }
                    return Err(e);
                },
            }
            i = i + 1;
        }
        proof {
            assert(names.take(i as int) == names);
        }
        let coverage = TestCoverage {
            session_id: self.session_id,
            suite_id: self.suite_id,
            test_id: self.test_id,
            files: records,
        };
        let mut coverages: Vec<TestCoverage> = Vec::new();
        coverages.push(coverage);
        proof {
            assert(coverage@.files =~= coverage_files_view(records@));
            assert(coverages@.map_values(|c: TestCoverage| c@) =~= seq![coverage@]);
        }
        Ok(plan_guarded(self.test_id, Call::SendCodeCoverage { coverages }))
    }

    /// Plans submitting text-valued benchmark data under a measure type.
    /// Empty data is a success that needs no call.
    pub fn set_benchmark_string_data(&self, measure_type: &str, data: &[(&str, &str)]) -> (r: Result<
        Plan,
        MarshalError,
    >)
        ensures
            planned_view(r) == benchmark_string_plan(
                self.test_id,
                measure_type@,
                text_pairs_chars(data@),
            ),
    {
        if data.len() == 0 {
            return Ok(Plan::Settled(true));
        }
        let ghost pairs = text_pairs_chars(data@);
        let mut marshaled: Vec<(CText, CText)> = Vec::new();
        let mut i: usize = 0;
        proof {
            assert(pairs.take(0).len() == 0);
            assert(text_pairs_view(marshaled@) =~= Seq::empty());
        }
        while i < data.len()
            invariant
                0 <= i <= data.len(),
                pairs == text_pairs_chars(data@),
                marshal_all(pairs.take(i as int), text_pair_marshaler()) == Ok::<
                    Seq<(Seq<u8>, Seq<u8>)>,
                    MarshalError,
                >(text_pairs_view(marshaled@)),
            decreases data.len() - i,
        {
            proof {
                lemma_marshal_all_step(pairs, text_pair_marshaler(), i as int);
            }
            let ghost before = text_pairs_view(marshaled@);
            let pair = data[i];
            let key = match CText::new(pair.0) {
                Ok(text) => text,
                Err(e) => {
                    proof {
                        lemma_marshal_all_prefix_error(pairs, text_pair_marshaler(), i as int + 1);
                    }
                    return Err(e);
                },
            };
            let value = match CText::new(pair.1) {
                Ok(text) => text,
                Err(e) => {
                    proof {
                        lemma_marshal_all_prefix_error(pairs, text_pair_marshaler(), i as int + 1);
                    }
                    return Err(e);
                },
            };
            let ghost added = (key@, value@);
            marshaled.push((key, value));
            proof {
                assert(text_pairs_view(marshaled@) =~= before.push(added));
            }
            i = i + 1;
        }
        proof {
            assert(pairs.take(i as int) == pairs);
        }
        let measure_type = match CText::new(measure_type) {
            Ok(text) => text,
            Err(e) => {
                return Err(e);
            },
        };
        Ok(
            plan_guarded(
                self.test_id,
                Call::SetBenchmarkStringData { test_id: self.test_id, measure_type, data: marshaled },
            ),
        )
    }

    /// Plans submitting number-valued benchmark data under a measure type.
    /// Each number is given as the bits of its 64-bit floating-point form.
    /// Empty data is a success that needs no call.
    pub fn set_benchmark_number_data(&self, measure_type: &str, data: &[(&str, u64)]) -> (r: Result<
        Plan,
        MarshalError,
    >)
        ensures
            planned_view(r) == benchmark_number_plan(
                self.test_id,
                measure_type@,
                number_pairs_chars(data@),
            ),
    {
        if data.len() == 0 {
            return Ok(Plan::Settled(true));
        }
        let ghost pairs = number_pairs_chars(data@);
        let mut marshaled: Vec<(CText, u64)> = Vec::new();
        let mut i: usize = 0;
        proof {
            assert(pairs.take(0).len() == 0);
            assert(number_pairs_view(marshaled@) =~= Seq::empty());
        }
        while i < data.len()
            invariant
                0 <= i <= data.len(),
                pairs == number_pairs_chars(data@),
                marshal_all(pairs.take(i as int), number_pair_marshaler()) == Ok::<
                    Seq<(Seq<u8>, u64)>,
                    MarshalError,
                >(number_pairs_view(marshaled@)),
            decreases data.len() - i,
        {
            proof {
                lemma_marshal_all_step(pairs, number_pair_marshaler(), i as int);
            }
            let ghost before = number_pairs_view(marshaled@);
            let pair = data[i];
            let key = match CText::new(pair.0) {
                Ok(text) => text,
                Err(e) => {
                    proof {
                        lemma_marshal_all_prefix_error(
                            pairs,
                            number_pair_marshaler(),
                            i as int + 1,
                        );
                    }
                    return Err(e);
                },
            };
            let ghost added = (key@, pair.1);
            marshaled.push((key, pair.1));
            proof {
                assert(number_pairs_view(marshaled@) =~= before.push(added));
            }
            i = i + 1;
        }
        proof {
            assert(pairs.take(i as int) == pairs);
        }
        let measure_type = match CText::new(measure_type) {
            Ok(text) => text,
            Err(e) => {
                return Err(e);
            },
        };
        Ok(
            plan_guarded(
                self.test_id,
                Call::SetBenchmarkNumberData { test_id: self.test_id, measure_type, data: marshaled },
            ),
        )
    }
}

} // verus!
