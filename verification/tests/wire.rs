use test_optimization::boundary::Reply;
use test_optimization::wire::bool_from_wire;
use test_optimization::wire::bool_to_wire;
use test_optimization::wire::TestStatus;
use test_optimization::wire::INVALID_HANDLE;

#[test]
fn any_flag_above_zero_is_set() {
    assert!(!bool_from_wire(0));
    assert!(bool_from_wire(1));
    assert!(bool_from_wire(2));
    assert!(bool_from_wire(255));
}

#[test]
fn truth_values_are_written_as_one_and_zero() {
    assert_eq!(bool_to_wire(true), 1);
    assert_eq!(bool_to_wire(false), 0);
    assert!(bool_from_wire(bool_to_wire(true)));
    assert!(!bool_from_wire(bool_to_wire(false)));
}

#[test]
fn status_codes() {
    assert_eq!(TestStatus::Pass.code(), 0);
    assert_eq!(TestStatus::Fail.code(), 1);
    assert_eq!(TestStatus::Skip.code(), 2);
}

#[test]
fn status_codes_read_back() {
    assert_eq!(TestStatus::from_code(0), Some(TestStatus::Pass));
    assert_eq!(TestStatus::from_code(1), Some(TestStatus::Fail));
    assert_eq!(TestStatus::from_code(2), Some(TestStatus::Skip));
    assert_eq!(TestStatus::from_code(3), None);
    assert_eq!(TestStatus::from_code(255), None);
}

#[test]
fn only_a_set_flag_is_accepted() {
    assert!(Reply::Flag(1).accepted());
    assert!(Reply::Flag(7).accepted());
    assert!(!Reply::Flag(0).accepted());
    assert!(!Reply::Created { id: 5, valid: 1 }.accepted());
    assert!(!Reply::Nothing.accepted());
}

#[test]
fn only_a_creation_carries_a_handle() {
    assert_eq!(Reply::Created { id: 5, valid: 1 }.handle(), 5);
    assert_eq!(Reply::Created { id: 5, valid: 0 }.handle(), 5);
    assert_eq!(Reply::Flag(1).handle(), INVALID_HANDLE);
    assert_eq!(Reply::Nothing.handle(), INVALID_HANDLE);
}

#[test]
fn settled_plan_reads_as_its_outcome() {
    assert_eq!(Reply::settled(true), Reply::Flag(1));
    assert_eq!(Reply::settled(false), Reply::Flag(0));
    assert!(Reply::settled(true).accepted());
    assert!(!Reply::settled(false).accepted());
    assert_eq!(Reply::settled(true).handle(), INVALID_HANDLE);
}
