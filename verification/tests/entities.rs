use test_optimization::boundary::Call;
use test_optimization::boundary::Plan;
use test_optimization::boundary::Reply;
use test_optimization::entity::plan_close;
use test_optimization::entity::plan_error;
use test_optimization::entity::plan_guarded;
use test_optimization::entity::plan_number_tag;
use test_optimization::entity::plan_source;
use test_optimization::entity::plan_string_tag;
use test_optimization::module::TestModule;
use test_optimization::span::Span;
use test_optimization::suite::TestSuite;
use test_optimization::test_case::Test;
use test_optimization::text::CText;
use test_optimization::text::MarshalError;
use test_optimization::time::topt_UnixTime;
use test_optimization::wire::CloseKind;
use test_optimization::wire::EntityKind;
use test_optimization::wire::SourceKind;
use test_optimization::wire::INVALID_HANDLE;

fn text(s: &str) -> CText {
    CText::new(s).unwrap()
}

fn at(sec: u64) -> topt_UnixTime {
    topt_UnixTime { sec, nsec: 500 }
}

fn bad(position: usize) -> Result<Plan, MarshalError> {
    Err(MarshalError::EmbeddedTerminator { position })
}

const MODULE: TestModule = TestModule { session_id: 1, module_id: 2 };
const SUITE: TestSuite = TestSuite { suite_id: 3, module_id: 2, session_id: 1 };
const TEST: Test = Test { test_id: 4, suite_id: 3, module_id: 2, session_id: 1 };
const SPAN: Span = Span { span_id: 5, parent_id: 4 };

#[test]
fn guarded_call_is_made_on_a_valid_handle_only() {
    assert_eq!(plan_guarded(1, Call::Shutdown), Plan::Call(Call::Shutdown));
    assert_eq!(plan_guarded(u64::MAX, Call::Shutdown), Plan::Call(Call::Shutdown));
    assert_eq!(plan_guarded(INVALID_HANDLE, Call::Shutdown), Plan::Settled(false));
}

#[test]
fn string_tag_carries_key_and_value() {
    assert_eq!(
        plan_string_tag(EntityKind::Test, 4, "Pass-KeyFromRust", "Hello world"),
        Ok(Plan::Call(Call::SetStringTag {
            kind: EntityKind::Test,
            id: 4,
            key: text("Pass-KeyFromRust"),
            value: text("Hello world"),
        }))
    );
}

#[test]
fn string_tag_rejects_key_before_value() {
    assert_eq!(plan_string_tag(EntityKind::Test, 4, "ke\0y", "\0"), bad(2));
    assert_eq!(plan_string_tag(EntityKind::Test, 4, "key", "\0"), bad(0));
    assert_eq!(plan_string_tag(EntityKind::Test, INVALID_HANDLE, "key", "v\0"), bad(1));
}

#[test]
fn string_tag_on_the_invalid_handle_settles() {
    assert_eq!(
        plan_string_tag(EntityKind::Suite, INVALID_HANDLE, "k", "v"),
        Ok(Plan::Settled(false))
    );
}

#[test]
fn number_tag_carries_the_bits_of_the_number() {
    assert_eq!(
        plan_number_tag(EntityKind::Module, 2, "Module-NumberFromRust", 42f64.to_bits()),
        Ok(Plan::Call(Call::SetNumberTag {
            kind: EntityKind::Module,
            id: 2,
            key: text("Module-NumberFromRust"),
            value_bits: 42f64.to_bits(),
        }))
    );
    assert_eq!(plan_number_tag(EntityKind::Module, 2, "\0", 0), bad(0));
    assert_eq!(
        plan_number_tag(EntityKind::Module, INVALID_HANDLE, "k", 0),
        Ok(Plan::Settled(false))
    );
}

#[test]
fn error_carries_type_message_and_stack() {
    assert_eq!(
        plan_error(EntityKind::Test, 4, "custom_error_type", "error from rust lib", "..."),
        Ok(Plan::Call(Call::SetError {
            kind: EntityKind::Test,
            id: 4,
            error_type: text("custom_error_type"),
            error_message: text("error from rust lib"),
            error_stacktrace: text("..."),
        }))
    );
}

#[test]
fn error_rejects_the_first_bad_text() {
    assert_eq!(plan_error(EntityKind::Test, 4, "t\0", "\0", "\0"), bad(1));
    assert_eq!(plan_error(EntityKind::Test, 4, "t", "me\0", "\0"), bad(2));
    assert_eq!(plan_error(EntityKind::Test, 4, "t", "m", "sta\0"), bad(3));
    assert_eq!(
        plan_error(EntityKind::Test, INVALID_HANDLE, "t", "m", "s"),
        Ok(Plan::Settled(false))
    );
}

#[test]
fn source_carries_file_and_lines() {
    assert_eq!(
        plan_source(SourceKind::Test, 4, "test.rs", Some(6), Some(58)),
        Ok(Plan::Call(Call::SetSource {
            kind: SourceKind::Test,
            id: 4,
            file: text("test.rs"),
            start_line: Some(6),
            end_line: Some(58),
        }))
    );
}

#[test]
fn source_lines_may_be_absent() {
    for (start, end) in [(None, None), (Some(1), None), (None, Some(9))] {
        assert_eq!(
            plan_source(SourceKind::Suite, 3, "suite.rs", start, end),
            Ok(Plan::Call(Call::SetSource {
                kind: SourceKind::Suite,
                id: 3,
                file: text("suite.rs"),
                start_line: start,
                end_line: end,
            }))
        );
    }
    assert_eq!(plan_source(SourceKind::Suite, 3, "a\0", None, None), bad(1));
    assert_eq!(
        plan_source(SourceKind::Suite, INVALID_HANDLE, "a", None, None),
        Ok(Plan::Settled(false))
    );
}

#[test]
fn close_carries_the_finish_time() {
    assert_eq!(
        plan_close(CloseKind::Span, 5, at(11)),
        Plan::Call(Call::Close { kind: CloseKind::Span, id: 5, finish_time: at(11) })
    );
    assert_eq!(plan_close(CloseKind::Span, INVALID_HANDLE, at(11)), Plan::Settled(false));
}

#[test]
fn module_operations_address_the_module() {
    assert_eq!(
        MODULE.set_string_tag("k", "v"),
        plan_string_tag(EntityKind::Module, 2, "k", "v")
    );
    assert_eq!(MODULE.set_number_tag("k", 9), plan_number_tag(EntityKind::Module, 2, "k", 9));
    assert_eq!(
        MODULE.set_error_info("t", "m", "s"),
        plan_error(EntityKind::Module, 2, "t", "m", "s")
    );
    assert_eq!(
        MODULE.close(at(3)),
        Plan::Call(Call::Close { kind: CloseKind::Module, id: 2, finish_time: at(3) })
    );
}

#[test]
fn suite_creation_is_planned() {
    assert_eq!(
        MODULE.create_test_suite("My Suite", at(1)),
        Ok(Plan::Call(Call::SuiteCreate { module_id: 2, name: text("My Suite"), start_time: at(1) }))
    );
    assert_eq!(MODULE.create_test_suite("My\0Suite", at(1)), bad(2));
}

#[test]
fn suite_takes_the_handle_of_the_answer() {
    let suite = MODULE.suite_from_reply(&Reply::Created { id: 3, valid: 1 });
    assert_eq!(suite, SUITE);
    assert_eq!(suite.get_module(), MODULE);
}

#[test]
fn suite_operations_address_the_suite() {
    assert_eq!(SUITE.set_string_tag("k", "v"), plan_string_tag(EntityKind::Suite, 3, "k", "v"));
    assert_eq!(SUITE.set_number_tag("k", 9), plan_number_tag(EntityKind::Suite, 3, "k", 9));
    assert_eq!(
        SUITE.set_error_info("t", "m", "s"),
        plan_error(EntityKind::Suite, 3, "t", "m", "s")
    );
    assert_eq!(
        SUITE.set_test_source("f.rs", Some(1), None),
        plan_source(SourceKind::Suite, 3, "f.rs", Some(1), None)
    );
    assert_eq!(
        SUITE.close(at(3)),
        Plan::Call(Call::Close { kind: CloseKind::Suite, id: 3, finish_time: at(3) })
    );
}

#[test]
fn test_creation_is_planned() {
    assert_eq!(
        SUITE.create_test("My PassTest", at(1)),
        Ok(Plan::Call(Call::TestCreate { suite_id: 3, name: text("My PassTest"), start_time: at(1) }))
    );
    assert_eq!(SUITE.create_test("\0", at(1)), bad(0));
}

#[test]
fn test_takes_the_handle_of_the_answer() {
    let test = SUITE.test_from_reply(&Reply::Created { id: 4, valid: 1 });
    assert_eq!(test, TEST);
    assert_eq!(test.get_suite(), SUITE);
    assert_eq!(test.get_suite().get_module(), MODULE);
}

#[test]
fn parent_is_a_way_back_and_nothing_more() {
    let parent = TEST.get_suite();
    assert_eq!(
        parent.close(at(1)),
        Plan::Call(Call::Close { kind: CloseKind::Suite, id: 3, finish_time: at(1) })
    );
    assert_eq!(TEST.get_suite(), SUITE);
    assert_eq!(
        TEST.set_string_tag("k", "v"),
        plan_string_tag(EntityKind::Test, 4, "k", "v")
    );
}

#[test]
fn test_operations_address_the_test() {
    assert_eq!(TEST.set_number_tag("k", 9), plan_number_tag(EntityKind::Test, 4, "k", 9));
    assert_eq!(
        TEST.set_error_info("t", "m", "s"),
        plan_error(EntityKind::Test, 4, "t", "m", "s")
    );
    assert_eq!(
        TEST.set_test_source("test.rs", Some(6), Some(58)),
        plan_source(SourceKind::Test, 4, "test.rs", Some(6), Some(58))
    );
}

#[test]
fn span_creation_is_planned() {
    assert_eq!(
        Span::create(
            4,
            "my-operation-name",
            "my-service",
            "test-resource-name",
            "span-type",
            at(2)
        ),
        Ok(Plan::Call(Call::SpanCreate {
            parent_id: 4,
            operation_name: text("my-operation-name"),
            service_name: text("my-service"),
            resource_name: text("test-resource-name"),
            span_type: text("span-type"),
            start_time: at(2),
        }))
    );
}

#[test]
fn span_creation_rejects_the_first_bad_text() {
    assert_eq!(Span::create(4, "\0", "s\0", "r\0", "t\0", at(2)), bad(0));
    assert_eq!(Span::create(4, "o", "s\0", "\0", "\0", at(2)), bad(1));
    assert_eq!(Span::create(4, "o", "s", "re\0", "\0", at(2)), bad(2));
    assert_eq!(Span::create(4, "o", "s", "r", "typ\0", at(2)), bad(3));
}

#[test]
fn span_under_the_invalid_handle_settles() {
    assert_eq!(Span::create(INVALID_HANDLE, "o", "s", "r", "t", at(2)), Ok(Plan::Settled(false)));
    let span = Span::from_reply(INVALID_HANDLE, &Reply::settled(false));
    assert_eq!(span, Span { span_id: INVALID_HANDLE, parent_id: INVALID_HANDLE });
    assert_eq!(span.close(at(3)), Plan::Settled(false));
}

#[test]
fn span_takes_the_handle_of_the_answer() {
    assert_eq!(Span::from_reply(4, &Reply::Created { id: 5, valid: 1 }), SPAN);
}

#[test]
fn span_operations_address_the_span() {
    assert_eq!(SPAN.set_string_tag("k", "v"), plan_string_tag(EntityKind::Span, 5, "k", "v"));
    assert_eq!(SPAN.set_number_tag("k", 9), plan_number_tag(EntityKind::Span, 5, "k", 9));
    assert_eq!(
        SPAN.set_error_info("t", "m", "s"),
        plan_error(EntityKind::Span, 5, "t", "m", "s")
    );
    assert_eq!(
        SPAN.close(at(8)),
        Plan::Call(Call::Close { kind: CloseKind::Span, id: 5, finish_time: at(8) })
    );
}

#[test]
fn closing_twice_plans_the_same_call_again() {
    let first = MODULE.close(at(1));
    let second = MODULE.close(at(1));
    assert_eq!(first, second);
    assert!(matches!(second, Plan::Call(Call::Close { id: 2, .. })));
}
