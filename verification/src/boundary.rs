//! The boundary to the engine as values: each call that can be made, each
//! answer that can come back, and the plan that an operation of the client
//! settles on.
//!
//! The client decides; a transport acts. An operation returns a [`Plan`]. The
//! transport makes the calls of the plan, hands each answer back as a
//! [`Reply`], and the client reads the outcome from it.

use crate::text::CText;
use crate::text::MarshalError;
use crate::time::topt_UnixTime;
use crate::wire::bool_from_wire;
use crate::wire::bool_to_wire;
use crate::wire::flag_is_set;
use crate::wire::flag_of;
use crate::wire::CloseKind;
use crate::wire::EntityKind;
use crate::wire::FlakyTestRetriesRecord;
use crate::wire::KnownTestRecord;
use crate::wire::MockSpanRecord;
use crate::wire::SettingsRecord;
use crate::wire::SkippableTestRecord;
use crate::wire::SourceKind;
use crate::wire::TestPropertiesRecord;
use crate::wire::INVALID_HANDLE;
use vstd::prelude::*;

verus! {

/// One file of a coverage report: its name and its coverage bitmap.
#[derive(Debug, Clone, PartialEq, Eq)]
pub struct CoverageFile {
    pub filename: CText,
    pub bitmap: Vec<u8>,
}

/// The coverage of one test: the files it touched, addressed to the test by
/// the handles of its session, its suite and itself.
#[derive(Debug, Clone, PartialEq, Eq)]
pub struct TestCoverage {
    pub session_id: u64,
    pub suite_id: u64,
    pub test_id: u64,
    pub files: Vec<CoverageFile>,
}

/// A call across the boundary, with every argument marshaled.
#[allow(inconsistent_fields)]
#[derive(Debug, Clone, PartialEq, Eq)]
pub enum Call {
    /// One-time initialization of the engine.
    Initialize {
        language: CText,
        runtime_name: CText,
        runtime_version: CText,
        working_directory: Option<CText>,
        use_mock_tracer: u8,
    },
    /// Global shutdown of the engine.
    Shutdown,
    GetSettings,
    GetFlakyTestRetriesSettings,
    GetKnownTests,
    GetSkippableTests,
    GetTestManagementTests,
    /// Submits a batch of coverage reports.
    SendCodeCoverage { coverages: Vec<TestCoverage> },
    SessionCreate { start_time: topt_UnixTime },
    ModuleCreate {
        session_id: u64,
        name: CText,
        framework: CText,
        framework_version: CText,
        start_time: topt_UnixTime,
    },
    SuiteCreate { module_id: u64, name: CText, start_time: topt_UnixTime },
    TestCreate { suite_id: u64, name: CText, start_time: topt_UnixTime },
    SpanCreate {
        parent_id: u64,
        operation_name: CText,
        service_name: CText,
        resource_name: CText,
        span_type: CText,
        start_time: topt_UnixTime,
    },
    SessionClose { session_id: u64, exit_code: i32, finish_time: topt_UnixTime },
    /// Closes a module, a suite or a span.
    Close { kind: CloseKind, id: u64, finish_time: topt_UnixTime },
    TestClose { test_id: u64, status: u8, finish_time: topt_UnixTime, skip_reason: Option<CText> },
    SetStringTag { kind: EntityKind, id: u64, key: CText, value: CText },
    /// The number travels as the bits of its 64-bit floating-point form.
    SetNumberTag { kind: EntityKind, id: u64, key: CText, value_bits: u64 },
    SetError {
        kind: EntityKind,
        id: u64,
        error_type: CText,
        error_message: CText,
        error_stacktrace: CText,
    },
    /// Sets the source location of a suite or a test.
    SetSource { kind: SourceKind, id: u64, file: CText, start_line: Option<i32>, end_line: Option<i32> },
    SetBenchmarkStringData { test_id: u64, measure_type: CText, data: Vec<(CText, CText)> },
    /// Each number travels as the bits of its 64-bit floating-point form.
    SetBenchmarkNumberData { test_id: u64, measure_type: CText, data: Vec<(CText, u64)> },
    MockTracerReset,
    MockTracerGetFinishedSpans,
    MockTracerGetOpenSpans,
}

/// What an operation of the client settles on.
#[derive(Debug, Clone, PartialEq, Eq)]
pub enum Plan {
    /// Make this call; its answer is the outcome.
    Call(Call),
    /// Make the first call, then the second whatever the first was answered;
    /// the answer to the first is the outcome.
    CallThen(Call, Call),
    /// Make no call; the outcome is this success or failure.
    Settled(bool),
}

/// An answer of the engine.
#[derive(Debug, Clone, PartialEq, Eq)]
pub enum Reply {
    /// A flag that tells whether the engine applied the call.
    Flag(u8),
    /// The handle of an entity that the engine created, and the flag that
    /// came with it.
    Created { id: u64, valid: u8 },
    Settings(SettingsRecord),
    FlakyTestRetries(FlakyTestRetriesRecord),
    /// The known tests, or nothing for an array with a null pointer.
    KnownTests(Option<Vec<KnownTestRecord>>),
    /// The skippable tests, or nothing for an array with a null pointer.
    SkippableTests(Option<Vec<SkippableTestRecord>>),
    /// The managed tests, or nothing for an array with a null pointer.
    TestManagementTests(Option<Vec<TestPropertiesRecord>>),
    /// The captured spans, or nothing for an array with a null pointer.
    MockSpans(Option<Vec<MockSpanRecord>>),
    /// The call has no answer.
    Nothing,
}

/// An optional text buffer seen as its bytes.
pub open spec fn optional_text_view(text: Option<CText>) -> Option<Seq<u8>> {
    match text {
        Some(t) => Some(t@),
        None => None,
    }
}

/// A [`CoverageFile`] with its buffers seen as bytes.
pub struct CoverageFileView {
    pub filename: Seq<u8>,
    pub bitmap: Seq<u8>,
}

impl View for CoverageFile {
    type V = CoverageFileView;

    open spec fn view(&self) -> CoverageFileView {
        CoverageFileView { filename: self.filename@, bitmap: self.bitmap@ }
    }
}

/// A [`TestCoverage`] with its buffers seen as bytes.
pub struct TestCoverageView {
    pub session_id: u64,
    pub suite_id: u64,
    pub test_id: u64,
    pub files: Seq<CoverageFileView>,
}

impl View for TestCoverage {
    type V = TestCoverageView;

    open spec fn view(&self) -> TestCoverageView {
        TestCoverageView {
            session_id: self.session_id,
            suite_id: self.suite_id,
            test_id: self.test_id,
            files: self.files@.map_values(|f: CoverageFile| f@),
        }
    }
}

/// Pairs of a key and a text value, each seen as bytes.
pub open spec fn text_pairs_view(pairs: Seq<(CText, CText)>) -> Seq<(Seq<u8>, Seq<u8>)> {
    pairs.map_values(|p: (CText, CText)| (p.0@, p.1@))
}

/// Pairs of a key and a number, each key seen as bytes.
pub open spec fn number_pairs_view(pairs: Seq<(CText, u64)>) -> Seq<(Seq<u8>, u64)> {
    pairs.map_values(|p: (CText, u64)| (p.0@, p.1))
}

/// A [`Call`] with every buffer seen as bytes.
#[allow(inconsistent_fields)]
pub enum CallView {
    Initialize {
        language: Seq<u8>,
        runtime_name: Seq<u8>,
        runtime_version: Seq<u8>,
        working_directory: Option<Seq<u8>>,
        use_mock_tracer: u8,
    },
    Shutdown,
    GetSettings,
    GetFlakyTestRetriesSettings,
    GetKnownTests,
    GetSkippableTests,
    GetTestManagementTests,
    SendCodeCoverage { coverages: Seq<TestCoverageView> },
    SessionCreate { start_time: topt_UnixTime },
    ModuleCreate {
        session_id: u64,
        name: Seq<u8>,
        framework: Seq<u8>,
        framework_version: Seq<u8>,
        start_time: topt_UnixTime,
    },
    SuiteCreate { module_id: u64, name: Seq<u8>, start_time: topt_UnixTime },
    TestCreate { suite_id: u64, name: Seq<u8>, start_time: topt_UnixTime },
    SpanCreate {
        parent_id: u64,
        operation_name: Seq<u8>,
        service_name: Seq<u8>,
        resource_name: Seq<u8>,
        span_type: Seq<u8>,
        start_time: topt_UnixTime,
    },
    SessionClose { session_id: u64, exit_code: i32, finish_time: topt_UnixTime },
    Close { kind: CloseKind, id: u64, finish_time: topt_UnixTime },
    TestClose {
        test_id: u64,
        status: u8,
        finish_time: topt_UnixTime,
        skip_reason: Option<Seq<u8>>,
    },
    SetStringTag { kind: EntityKind, id: u64, key: Seq<u8>, value: Seq<u8> },
    SetNumberTag { kind: EntityKind, id: u64, key: Seq<u8>, value_bits: u64 },
    SetError {
        kind: EntityKind,
        id: u64,
        error_type: Seq<u8>,
        error_message: Seq<u8>,
        error_stacktrace: Seq<u8>,
    },
    SetSource {
        kind: SourceKind,
        id: u64,
        file: Seq<u8>,
        start_line: Option<i32>,
        end_line: Option<i32>,
    },
    SetBenchmarkStringData { test_id: u64, measure_type: Seq<u8>, data: Seq<(Seq<u8>, Seq<u8>)> },
    SetBenchmarkNumberData { test_id: u64, measure_type: Seq<u8>, data: Seq<(Seq<u8>, u64)> },
    MockTracerReset,
    MockTracerGetFinishedSpans,
    MockTracerGetOpenSpans,
}

impl View for Call {
    type V = CallView;

    open spec fn view(&self) -> CallView {
        match *self {
            Call::Initialize {
                language,
                runtime_name,
                runtime_version,
                working_directory,
                use_mock_tracer,
            } => CallView::Initialize {
                language: language@,
                runtime_name: runtime_name@,
                runtime_version: runtime_version@,
                working_directory: optional_text_view(working_directory),
                use_mock_tracer,
            },
            Call::Shutdown => CallView::Shutdown,
            Call::GetSettings => CallView::GetSettings,
            Call::GetFlakyTestRetriesSettings => CallView::GetFlakyTestRetriesSettings,
            Call::GetKnownTests => CallView::GetKnownTests,
            Call::GetSkippableTests => CallView::GetSkippableTests,
            Call::GetTestManagementTests => CallView::GetTestManagementTests,
            Call::SendCodeCoverage { coverages } => CallView::SendCodeCoverage {
                coverages: coverages@.map_values(|c: TestCoverage| c@),
            },
            Call::SessionCreate { start_time } => CallView::SessionCreate { start_time },
            Call::ModuleCreate { session_id, name, framework, framework_version, start_time } =>
                CallView::ModuleCreate {
                    session_id,
                    name: name@,
                    framework: framework@,
                    framework_version: framework_version@,
                    start_time,
                },
            Call::SuiteCreate { module_id, name, start_time } => CallView::SuiteCreate {
                module_id,
                name: name@,
                start_time,
            },
            Call::TestCreate { suite_id, name, start_time } => CallView::TestCreate {
                suite_id,
                name: name@,
                start_time,
            },
            Call::SpanCreate {
                parent_id,
                operation_name,
                service_name,
                resource_name,
                span_type,
                start_time,
            } => CallView::SpanCreate {
                parent_id,
                operation_name: operation_name@,
                service_name: service_name@,
                resource_name: resource_name@,
                span_type: span_type@,
                start_time,
            },
            Call::SessionClose { session_id, exit_code, finish_time } => CallView::SessionClose {
                session_id,
                exit_code,
                finish_time,
            },
            Call::Close { kind, id, finish_time } => CallView::Close { kind, id, finish_time },
            Call::TestClose { test_id, status, finish_time, skip_reason } => CallView::TestClose {
                test_id,
                status,
                finish_time,
                skip_reason: optional_text_view(skip_reason),
            },
            Call::SetStringTag { kind, id, key, value } => CallView::SetStringTag {
                kind,
                id,
                key: key@,
                value: value@,
            },
            Call::SetNumberTag { kind, id, key, value_bits } => CallView::SetNumberTag {
                kind,
                id,
                key: key@,
                value_bits,
            },
            Call::SetError { kind, id, error_type, error_message, error_stacktrace } =>
                CallView::SetError {
                    kind,
                    id,
                    error_type: error_type@,
                    error_message: error_message@,
                    error_stacktrace: error_stacktrace@,
                },
            Call::SetSource { kind, id, file, start_line, end_line } => CallView::SetSource {
                kind,
                id,
                file: file@,
                start_line,
                end_line,
            },
            Call::SetBenchmarkStringData { test_id, measure_type, data } =>
                CallView::SetBenchmarkStringData {
                    test_id,
                    measure_type: measure_type@,
                    data: text_pairs_view(data@),
                },
            Call::SetBenchmarkNumberData { test_id, measure_type, data } =>
                CallView::SetBenchmarkNumberData {
                    test_id,
                    measure_type: measure_type@,
                    data: number_pairs_view(data@),
                },
            Call::MockTracerReset => CallView::MockTracerReset,
            Call::MockTracerGetFinishedSpans => CallView::MockTracerGetFinishedSpans,
            Call::MockTracerGetOpenSpans => CallView::MockTracerGetOpenSpans,
        }
    }
}

/// A [`Plan`] with every buffer seen as bytes.
pub enum PlanView {
    Call(CallView),
    CallThen(CallView, CallView),
    Settled(bool),
}

impl View for Plan {
    type V = PlanView;

    open spec fn view(&self) -> PlanView {
        match *self {
            Plan::Call(call) => PlanView::Call(call@),
            Plan::CallThen(first, second) => PlanView::CallThen(first@, second@),
            Plan::Settled(outcome) => PlanView::Settled(outcome),
        }
    }
}

impl PlanView {
    /// Number of boundary calls that the plan makes.
    pub open spec fn calls(self) -> nat {
        match self {
            PlanView::Call(_) => 1,
            PlanView::CallThen(_, _) => 2,
            PlanView::Settled(_) => 0,
        }
    }
}

/// What planning an operation yields, with the plan seen through its view.
pub open spec fn planned_view(r: Result<Plan, MarshalError>) -> Result<PlanView, MarshalError> {
    match r {
        Ok(plan) => Ok(plan@),
        Err(e) => Err(e),
    }
}

impl Reply {
    /// Whether the answer reports success: a flag that is set.
    pub open spec fn spec_accepted(self) -> bool {
        self matches Reply::Flag(flag) && flag_is_set(flag)
    }

    /// Whether the answer reports success. Any answer but a set flag is a
    /// failure.
    pub fn accepted(&self) -> (b: bool)
        ensures
            b == self.spec_accepted(),
    {
        match self {
            Reply::Flag(flag) => bool_from_wire(*flag),
            _ => false,
        }
    }

    /// The handle that the answer carries; the invalid handle where it
    /// carries none.
    pub open spec fn spec_handle(self) -> u64 {
        match self {
            Reply::Created { id, valid } => id,
            _ => INVALID_HANDLE,
        }
    }

    /// The handle that the answer carries; the invalid handle where it
    /// carries none. The flag that comes with a handle is not consulted.
    pub fn handle(&self) -> (id: u64)
        ensures
            id == self.spec_handle(),
    {
        match self {
            Reply::Created { id, valid } => *id,
            _ => INVALID_HANDLE,
        }
    }

    /// The answer that stands for a plan that made no call.
    pub fn settled(outcome: bool) -> (r: Reply)
        ensures
            r == Reply::Flag(flag_of(outcome)),
            r.spec_accepted() == outcome,
            r.spec_handle() == INVALID_HANDLE,
    {
        Reply::Flag(bool_to_wire(outcome))
    }
}

} // verus!
