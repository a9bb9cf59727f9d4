//! Snapshots of the engine's settings: plain values that the client owns
//! once they are read from an answer.
//!
//! Where the settings could not be fetched, every adaptive feature reads as
//! disabled.

use crate::boundary::Reply;
use crate::wire::flag_is_set;
use crate::wire::bool_from_wire;
use crate::wire::EarlyFlakeDetectionRecord;
use crate::wire::FlakyTestRetriesRecord;
use crate::wire::SettingsRecord;
use crate::wire::SlowTestRetriesRecord;
use crate::wire::TestManagementRecord;
use vstd::prelude::*;

verus! {

/// The settings of a run.
#[derive(Debug, Clone, Copy, PartialEq, Eq, Structural)]
pub struct Settings {
    pub code_coverage: bool,
    pub early_flake_detection: EfDSettings,
    pub flaky_test_retries_enabled: bool,
    pub itr_enabled: bool,
    pub require_git: bool,
    pub tests_skipping: bool,
    pub known_tests_enabled: bool,
    pub test_management: TestManagementSettings,
}

/// Early flake detection: whether it is on, its retry budgets, and the
/// threshold at which a session counts as faulty.
#[derive(Debug, Clone, Copy, PartialEq, Eq, Structural)]
pub struct EfDSettings {
    pub enabled: bool,
    pub slow_test_retries: EfdSlowTestRetriesSettings,
    pub faulty_session_threshold: i32,
}

/// Retry budgets of early flake detection by duration of the test.
#[derive(Debug, Clone, Copy, PartialEq, Eq, Structural)]
pub struct EfdSlowTestRetriesSettings {
    pub ten_s: i32,
    pub thirty_s: i32,
    pub five_m: i32,
    pub five_s: i32,
}

/// The retry budget for flaky tests.
#[derive(Debug, Clone, Copy, PartialEq, Eq, Structural)]
pub struct FlakyTestRetriesSettings {
    pub retry_count: i32,
    pub total_retry_count: i32,
}

/// Test management: whether it is on, and how often a test that someone
/// attempts to fix is retried.
#[derive(Debug, Clone, Copy, PartialEq, Eq, Structural)]
pub struct TestManagementSettings {
    pub enabled: bool,
    pub attempt_to_fix_retries: i32,
}

impl EfdSlowTestRetriesSettings {
    /// The budgets that a record holds.
    pub open spec fn of_record(record: SlowTestRetriesRecord) -> EfdSlowTestRetriesSettings {
        EfdSlowTestRetriesSettings {
            ten_s: record.ten_s,
            thirty_s: record.thirty_s,
            five_m: record.five_m,
            five_s: record.five_s,
        }
    }

    /// Reads the budgets from a record.
    pub fn from_record(record: &SlowTestRetriesRecord) -> (s: EfdSlowTestRetriesSettings)
        ensures
            s == Self::of_record(*record),
    {
        EfdSlowTestRetriesSettings {
            ten_s: record.ten_s,
            thirty_s: record.thirty_s,
            five_m: record.five_m,
            five_s: record.five_s,
        }
    }
}

impl EfDSettings {
    /// The early flake detection that a record holds.
    pub open spec fn of_record(record: EarlyFlakeDetectionRecord) -> EfDSettings {
        EfDSettings {
            enabled: flag_is_set(record.enabled),
            slow_test_retries: EfdSlowTestRetriesSettings::of_record(record.slow_test_retries),
            faulty_session_threshold: record.faulty_session_threshold,
        }
    }

    /// Reads early flake detection from a record.
    pub fn from_record(record: &EarlyFlakeDetectionRecord) -> (s: EfDSettings)
        ensures
            s == Self::of_record(*record),
    {
        EfDSettings {
            enabled: bool_from_wire(record.enabled),
            slow_test_retries: EfdSlowTestRetriesSettings::from_record(&record.slow_test_retries),
            faulty_session_threshold: record.faulty_session_threshold,
        }
    }
}

impl TestManagementSettings {
    /// The test management that a record holds.
    pub open spec fn of_record(record: TestManagementRecord) -> TestManagementSettings {
        TestManagementSettings {
            enabled: flag_is_set(record.enabled),
            attempt_to_fix_retries: record.attempt_to_fix_retries,
        }
    }

    /// Reads test management from a record.
    pub fn from_record(record: &TestManagementRecord) -> (s: TestManagementSettings)
        ensures
            s == Self::of_record(*record),
    {
        TestManagementSettings {
            enabled: bool_from_wire(record.enabled),
            attempt_to_fix_retries: record.attempt_to_fix_retries,
        }
    }
}

impl Settings {
    /// The settings that a record holds: each flag read, each number kept.
    pub open spec fn of_record(record: SettingsRecord) -> Settings {
        Settings {
            code_coverage: flag_is_set(record.code_coverage),
            early_flake_detection: EfDSettings::of_record(record.early_flake_detection),
            flaky_test_retries_enabled: flag_is_set(record.flaky_test_retries_enabled),
            itr_enabled: flag_is_set(record.itr_enabled),
            require_git: flag_is_set(record.require_git),
            tests_skipping: flag_is_set(record.tests_skipping),
            known_tests_enabled: flag_is_set(record.known_tests_enabled),
            test_management: TestManagementSettings::of_record(record.test_management),
        }
    }

    /// The settings with every feature off and every budget zero.
    pub open spec fn spec_disabled() -> Settings {
        Settings {
            code_coverage: false,
            early_flake_detection: EfDSettings {
                enabled: false,
                slow_test_retries: EfdSlowTestRetriesSettings {
                    ten_s: 0,
                    thirty_s: 0,
                    five_m: 0,
                    five_s: 0,
                },
                faulty_session_threshold: 0,
            },
            flaky_test_retries_enabled: false,
            itr_enabled: false,
            require_git: false,
            tests_skipping: false,
            known_tests_enabled: false,
            test_management: TestManagementSettings { enabled: false, attempt_to_fix_retries: 0 },
        }
    }

    /// The settings that an answer stands for: those of its record, or the
    /// disabled settings for any answer that holds none.
    pub open spec fn of_reply(reply: Reply) -> Settings {
        match reply {
            Reply::Settings(record) => Self::of_record(record),
            _ => Self::spec_disabled(),
        }
    }

    /// Reads the settings from a record.
    pub fn from_record(record: &SettingsRecord) -> (s: Settings)
        ensures
            s == Self::of_record(*record),
    {
        Settings {
            code_coverage: bool_from_wire(record.code_coverage),
            early_flake_detection: EfDSettings::from_record(&record.early_flake_detection),
            flaky_test_retries_enabled: bool_from_wire(record.flaky_test_retries_enabled),
            itr_enabled: bool_from_wire(record.itr_enabled),
            require_git: bool_from_wire(record.require_git),
            tests_skipping: bool_from_wire(record.tests_skipping),
            known_tests_enabled: bool_from_wire(record.known_tests_enabled),
            test_management: TestManagementSettings::from_record(&record.test_management),
        }
    }

    /// The settings with every feature off and every budget zero.
    pub fn disabled() -> (s: Settings)
        ensures
            s == Self::spec_disabled(),
    {
        Settings {
            code_coverage: false,
            early_flake_detection: EfDSettings {
                enabled: false,
                slow_test_retries: EfdSlowTestRetriesSettings {
                    ten_s: 0,
                    thirty_s: 0,
                    five_m: 0,
                    five_s: 0,
                },
                faulty_session_threshold: 0,
            },
            flaky_test_retries_enabled: false,
            itr_enabled: false,
            require_git: false,
            tests_skipping: false,
            known_tests_enabled: false,
            test_management: TestManagementSettings { enabled: false, attempt_to_fix_retries: 0 },
        }
    }

    /// Reads the settings from the engine's answer. Any answer that holds no
    /// settings, such as the one that stands for a fetch that was never
    /// made, reads as the disabled settings.
    pub fn from_reply(reply: &Reply) -> (s: Settings)
        ensures
            s == Self::of_reply(*reply),
    {
        match reply {
            Reply::Settings(record) => Settings::from_record(record),
            _ => Settings::disabled(),
        }
    }
}

impl FlakyTestRetriesSettings {
    /// The retry budget that a record holds.
    pub open spec fn of_record(record: FlakyTestRetriesRecord) -> FlakyTestRetriesSettings {
        FlakyTestRetriesSettings {
            retry_count: record.retry_count,
            total_retry_count: record.total_retry_count,
        }
    }

    /// The retry budget that an answer stands for: that of its record, or a
    /// budget of zero for any answer that holds none.
    pub open spec fn of_reply(reply: Reply) -> FlakyTestRetriesSettings {
        match reply {
            Reply::FlakyTestRetries(record) => Self::of_record(record),
            _ => FlakyTestRetriesSettings { retry_count: 0, total_retry_count: 0 },
        }
    }

    /// Reads the retry budget from a record.
    pub fn from_record(record: &FlakyTestRetriesRecord) -> (s: FlakyTestRetriesSettings)
        ensures
            s == Self::of_record(*record),
    {
        FlakyTestRetriesSettings {
            retry_count: record.retry_count,
            total_retry_count: record.total_retry_count,
        }
    }

    /// Reads the retry budget from the engine's answer. Any answer that
    /// holds none reads as a budget of zero.
    pub fn from_reply(reply: &Reply) -> (s: FlakyTestRetriesSettings)
        ensures
            s == Self::of_reply(*reply),
    {
        match reply {
            Reply::FlakyTestRetries(record) => FlakyTestRetriesSettings::from_record(record),
            _ => FlakyTestRetriesSettings { retry_count: 0, total_retry_count: 0 },
        }
    }
}

/// Fetching the settings twice gives equal snapshots as long as the engine
/// gives equal answers: a snapshot is a function of the answer alone, and
/// planning the fetch reads the session without changing it.
pub proof fn law_settings_repeatable(first: Reply, second: Reply)
    requires
        first == second,
    ensures
        Settings::of_reply(first) == Settings::of_reply(second),
        FlakyTestRetriesSettings::of_reply(first) == FlakyTestRetriesSettings::of_reply(second),
{
}

/// Settings that could not be fetched read as disabled: no feature is on.
pub proof fn law_unfetched_settings_disabled(reply: Reply)
    requires
        !(reply is Settings),
    ensures
        Settings::of_reply(reply) == Settings::spec_disabled(),
        !Settings::of_reply(reply).code_coverage,
        !Settings::of_reply(reply).early_flake_detection.enabled,
        !Settings::of_reply(reply).flaky_test_retries_enabled,
        !Settings::of_reply(reply).itr_enabled,
        !Settings::of_reply(reply).tests_skipping,
        !Settings::of_reply(reply).known_tests_enabled,
        !Settings::of_reply(reply).test_management.enabled,
{
}

} // verus!
