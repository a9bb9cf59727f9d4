//! Plain values of the boundary: flags, status codes, handles, and the
//! records that the engine hands back.
//!
//! A record here holds what the fixed-layout record of the boundary holds,
//! with every pointer to text replaced by an optional text buffer (nothing
//! for a null pointer) and every pointer to an array by its elements.

use crate::text::CText;
use crate::time::topt_UnixTime;
use vstd::prelude::*;

verus! {

/// The handle that denotes no entity. The engine never assigns it.
pub const INVALID_HANDLE: u64 = 0;

/// Whether a flag of the boundary is set: any value above zero.
pub open spec fn flag_is_set(flag: u8) -> bool {
    flag > 0
}

/// Reads a flag of the boundary.
pub fn bool_from_wire(flag: u8) -> (b: bool)
    ensures
        b == flag_is_set(flag),
{
    flag > 0
}

/// The flag of the boundary for a truth value: one or zero.
pub open spec fn flag_of(b: bool) -> u8 {
    if b {
        1
    } else {
        0
    }
}

/// Writes a truth value as a flag of the boundary.
pub fn bool_to_wire(b: bool) -> (flag: u8)
    ensures
        flag == flag_of(b),
        flag_is_set(flag) == b,
{
    if b {
        1
    } else {
        0
    }
}

/// The kinds of entity that the engine keeps.
#[derive(Debug, Clone, Copy, PartialEq, Eq, Structural)]
pub enum EntityKind {
    Session,
    Module,
    Suite,
    Test,
    Span,
}

/// The kinds of entity that a time alone closes.
#[derive(Debug, Clone, Copy, PartialEq, Eq, Structural)]
pub enum CloseKind {
    Module,
    Suite,
    Span,
}

/// The kinds of entity that have a source location.
#[derive(Debug, Clone, Copy, PartialEq, Eq, Structural)]
pub enum SourceKind {
    Suite,
    Test,
}

/// How a test ended.
#[derive(Debug, Clone, Copy, PartialEq, Eq, Structural)]
pub enum TestStatus {
    Pass,
    Fail,
    Skip,
}

impl TestStatus {
    /// The status code of the boundary.
    pub open spec fn spec_code(self) -> u8 {
        match self {
            TestStatus::Pass => 0,
            TestStatus::Fail => 1,
            TestStatus::Skip => 2,
        }
    }

    /// The status code of the boundary.
    pub fn code(&self) -> (c: u8)
        ensures
            c == self.spec_code(),
    {
        match self {
            TestStatus::Pass => 0,
            TestStatus::Fail => 1,
            TestStatus::Skip => 2,
        }
    }

    /// The status that a code of the boundary stands for.
    pub fn from_code(code: u8) -> (r: Option<TestStatus>)
        ensures
            r matches Some(s) ==> s.spec_code() == code,
            r is None <==> code > 2,
    {
        if code == 0 {
            Some(TestStatus::Pass)
        } else if code == 1 {
            Some(TestStatus::Fail)
        } else if code == 2 {
            Some(TestStatus::Skip)
        } else {
            None
        }
    }
}

/// Retry budgets of early flake detection by duration of the test.
#[derive(Debug, Clone, Copy, PartialEq, Eq, Structural)]
pub struct SlowTestRetriesRecord {
    pub ten_s: i32,
    pub thirty_s: i32,
    pub five_m: i32,
    pub five_s: i32,
}

/// Early flake detection as the engine reports it.
#[derive(Debug, Clone, Copy, PartialEq, Eq, Structural)]
pub struct EarlyFlakeDetectionRecord {
    pub enabled: u8,
    pub slow_test_retries: SlowTestRetriesRecord,
    pub faulty_session_threshold: i32,
}

/// Test management as the engine reports it.
#[derive(Debug, Clone, Copy, PartialEq, Eq, Structural)]
pub struct TestManagementRecord {
    pub enabled: u8,
    pub attempt_to_fix_retries: i32,
}

/// The settings of a run as the engine reports them.
#[derive(Debug, Clone, Copy, PartialEq, Eq, Structural)]
pub struct SettingsRecord {
    pub code_coverage: u8,
    pub early_flake_detection: EarlyFlakeDetectionRecord,
    pub flaky_test_retries_enabled: u8,
    pub itr_enabled: u8,
    pub require_git: u8,
    pub tests_skipping: u8,
    pub known_tests_enabled: u8,
    pub test_management: TestManagementRecord,
}

/// The retry budget for flaky tests as the engine reports it.
#[derive(Debug, Clone, Copy, PartialEq, Eq, Structural)]
pub struct FlakyTestRetriesRecord {
    pub retry_count: i32,
    pub total_retry_count: i32,
}

/// One known test as the engine reports it.
#[derive(Debug, Clone, PartialEq, Eq)]
pub struct KnownTestRecord {
    pub module_name: Option<CText>,
    pub suite_name: Option<CText>,
    pub test_name: Option<CText>,
}

/// One skippable test as the engine reports it.
#[derive(Debug, Clone, PartialEq, Eq)]
pub struct SkippableTestRecord {
    pub suite_name: Option<CText>,
    pub test_name: Option<CText>,
    pub parameters: Option<CText>,
    pub custom_configurations_json: Option<CText>,
}

/// The management properties of one test as the engine reports them.
#[derive(Debug, Clone, PartialEq, Eq)]
pub struct TestPropertiesRecord {
    pub module_name: Option<CText>,
    pub suite_name: Option<CText>,
    pub test_name: Option<CText>,
    pub quarantined: u8,
    pub disabled: u8,
    pub attempt_to_fix: u8,
}

/// A pair of a key and a text value as the engine reports it.
#[derive(Debug, Clone, PartialEq, Eq)]
pub struct KeyValueRecord {
    pub key: Option<CText>,
    pub value: Option<CText>,
}

/// A pair of a key and a number as the engine reports it. The number is held
/// as the bits of its 64-bit floating-point form.
#[derive(Debug, Clone, PartialEq, Eq)]
pub struct KeyNumberRecord {
    pub key: Option<CText>,
    pub value_bits: u64,
}

/// A span captured by the engine's mock tracer as the engine reports it. An
/// array whose pointer is null is held as nothing.
#[derive(Debug, Clone, PartialEq, Eq)]
pub struct MockSpanRecord {
    pub span_id: u64,
    pub trace_id: u64,
    pub parent_span_id: u64,
    pub start_time: topt_UnixTime,
    pub finish_time: topt_UnixTime,
    pub operation_name: Option<CText>,
    pub string_tags: Option<Vec<KeyValueRecord>>,
    pub number_tags: Option<Vec<KeyNumberRecord>>,
}

} // verus!
