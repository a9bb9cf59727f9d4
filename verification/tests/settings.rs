use test_optimization::boundary::Reply;
use test_optimization::settings::EfDSettings;
use test_optimization::settings::EfdSlowTestRetriesSettings;
use test_optimization::settings::FlakyTestRetriesSettings;
use test_optimization::settings::Settings;
use test_optimization::settings::TestManagementSettings;
use test_optimization::wire::EarlyFlakeDetectionRecord;
use test_optimization::wire::FlakyTestRetriesRecord;
use test_optimization::wire::SettingsRecord;
use test_optimization::wire::SlowTestRetriesRecord;
use test_optimization::wire::TestManagementRecord;

fn record() -> SettingsRecord {
    SettingsRecord {
        code_coverage: 1,
        early_flake_detection: EarlyFlakeDetectionRecord {
            enabled: 1,
            slow_test_retries: SlowTestRetriesRecord {
                ten_s: 5,
                thirty_s: 3,
                five_m: 2,
                five_s: 10,
            },
            faulty_session_threshold: 30,
        },
        flaky_test_retries_enabled: 0,
        itr_enabled: 2,
        require_git: 0,
        tests_skipping: 255,
        known_tests_enabled: 1,
        test_management: TestManagementRecord { enabled: 1, attempt_to_fix_retries: 20 },
    }
}

fn settings() -> Settings {
    Settings {
        code_coverage: true,
        early_flake_detection: EfDSettings {
            enabled: true,
            slow_test_retries: EfdSlowTestRetriesSettings {
                ten_s: 5,
                thirty_s: 3,
                five_m: 2,
                five_s: 10,
            },
            faulty_session_threshold: 30,
        },
        flaky_test_retries_enabled: false,
        itr_enabled: true,
        require_git: false,
        tests_skipping: true,
        known_tests_enabled: true,
        test_management: TestManagementSettings { enabled: true, attempt_to_fix_retries: 20 },
    }
}

#[test]
fn settings_are_read_field_by_field() {
    assert_eq!(Settings::from_record(&record()), settings());
}

#[test]
fn each_flag_is_read_on_its_own() {
    let mut wire = record();
    wire.require_git = 1;
    wire.code_coverage = 0;
    let read = Settings::from_record(&wire);
    assert!(read.require_git);
    assert!(!read.code_coverage);
    assert!(read.itr_enabled);
    let mut wire = record();
    wire.known_tests_enabled = 0;
    wire.flaky_test_retries_enabled = 9;
    wire.test_management.enabled = 0;
    wire.early_flake_detection.enabled = 0;
    let read = Settings::from_record(&wire);
    assert!(!read.known_tests_enabled);
    assert!(read.flaky_test_retries_enabled);
    assert!(!read.test_management.enabled);
    assert!(!read.early_flake_detection.enabled);
    assert_eq!(read.test_management.attempt_to_fix_retries, 20);
}

#[test]
fn numbers_are_kept_as_they_are() {
    let mut wire = record();
    wire.early_flake_detection.slow_test_retries.five_m = -1;
    wire.early_flake_detection.faulty_session_threshold = i32::MAX;
    wire.test_management.attempt_to_fix_retries = i32::MIN;
    let read = Settings::from_record(&wire);
    assert_eq!(read.early_flake_detection.slow_test_retries.five_m, -1);
    assert_eq!(read.early_flake_detection.slow_test_retries.ten_s, 5);
    assert_eq!(read.early_flake_detection.faulty_session_threshold, i32::MAX);
    assert_eq!(read.test_management.attempt_to_fix_retries, i32::MIN);
}

#[test]
fn parts_are_read_from_their_records() {
    let wire = record();
    assert_eq!(
        EfDSettings::from_record(&wire.early_flake_detection),
        settings().early_flake_detection
    );
    assert_eq!(
        EfdSlowTestRetriesSettings::from_record(&wire.early_flake_detection.slow_test_retries),
        settings().early_flake_detection.slow_test_retries
    );
    assert_eq!(
        TestManagementSettings::from_record(&wire.test_management),
        settings().test_management
    );
}

#[test]
fn settings_are_read_from_the_answer() {
    assert_eq!(Settings::from_reply(&Reply::Settings(record())), settings());
}

#[test]
fn fetching_twice_gives_equal_snapshots() {
    let first = Settings::from_reply(&Reply::Settings(record()));
    let second = Settings::from_reply(&Reply::Settings(record()));
    assert_eq!(first, second);
}

#[test]
fn disabled_settings_have_every_feature_off() {
    let off = Settings::disabled();
    assert!(!off.code_coverage);
    assert!(!off.early_flake_detection.enabled);
    assert!(!off.flaky_test_retries_enabled);
    assert!(!off.itr_enabled);
    assert!(!off.require_git);
    assert!(!off.tests_skipping);
    assert!(!off.known_tests_enabled);
    assert!(!off.test_management.enabled);
    assert_eq!(off.test_management.attempt_to_fix_retries, 0);
    assert_eq!(off.early_flake_detection.faulty_session_threshold, 0);
    assert_eq!(
        off.early_flake_detection.slow_test_retries,
        EfdSlowTestRetriesSettings { ten_s: 0, thirty_s: 0, five_m: 0, five_s: 0 }
    );
}

#[test]
fn settings_that_were_not_fetched_read_as_disabled() {
    assert_eq!(Settings::from_reply(&Reply::settled(false)), Settings::disabled());
    assert_eq!(Settings::from_reply(&Reply::Nothing), Settings::disabled());
    assert_eq!(
        Settings::from_reply(&Reply::FlakyTestRetries(FlakyTestRetriesRecord {
            retry_count: 5,
            total_retry_count: 9
        })),
        Settings::disabled()
    );
}

#[test]
fn flaky_retry_budget_is_read() {
    let wire = FlakyTestRetriesRecord { retry_count: 5, total_retry_count: 1000 };
    let want = FlakyTestRetriesSettings { retry_count: 5, total_retry_count: 1000 };
    assert_eq!(FlakyTestRetriesSettings::from_record(&wire), want);
    assert_eq!(FlakyTestRetriesSettings::from_reply(&Reply::FlakyTestRetries(wire)), want);
}

#[test]
fn flaky_retry_budget_that_was_not_fetched_is_zero() {
    let zero = FlakyTestRetriesSettings { retry_count: 0, total_retry_count: 0 };
    assert_eq!(FlakyTestRetriesSettings::from_reply(&Reply::settled(false)), zero);
    assert_eq!(FlakyTestRetriesSettings::from_reply(&Reply::Settings(record())), zero);
}
