//! Laws of the client that span several operations.
//!
//! The engine assigns the handles and answers the calls; what it does is
//! not the client's to prove. Each law here says what the client owes for
//! its part: which calls it plans, what they carry, and what it makes of
//! the answers.

use crate::boundary::CallView;
use crate::boundary::PlanView;
use crate::boundary::Reply;
use crate::entity::close_plan;
use crate::entity::error_plan;
use crate::entity::number_tag_plan;
use crate::entity::source_plan;
use crate::entity::string_tag_plan;
use crate::module::suite_create_plan;
use crate::session::module_create_plan;
use crate::session::start_plan;
use crate::session::TestSession;
use crate::span::span_create_plan;
use crate::suite::test_create_plan;
use crate::test_case::benchmark_number_plan;
use crate::test_case::benchmark_string_plan;
use crate::test_case::coverage_file_marshaler;
use crate::test_case::coverage_plan;
use crate::test_case::skip_plan;
use crate::test_case::test_close_plan;
use crate::text::is_marshalable;
use crate::text::lemma_encoding_terminator;
use crate::text::lemma_marshal_all_ok;
use crate::text::marshal_all;
use crate::text::marshal_text;
use crate::text::MarshalError;
use crate::time::topt_UnixTime;
use crate::wire::flag_of;
use crate::wire::CloseKind;
use crate::wire::EntityKind;
use crate::wire::SourceKind;
use crate::wire::TestStatus;
use crate::wire::INVALID_HANDLE;
use vstd::prelude::*;
use vstd::utf8::decode_utf8;
use vstd::utf8::encode_utf8;
use vstd::utf8::encode_utf8_decode_utf8;
use vstd::utf8::encode_utf8_valid_utf8;
use vstd::utf8::valid_utf8;

verus! {

/// A text without a terminator crosses the boundary unchanged: it marshals
/// to its UTF-8 bytes, which are valid and decode to the text again.
pub proof fn law_text_reads_back(text: Seq<char>)
    requires
        is_marshalable(text),
    ensures
        marshal_text(text) == Ok::<Seq<u8>, MarshalError>(encode_utf8(text)),
        valid_utf8(encode_utf8(text)),
        decode_utf8(encode_utf8(text)) == text,
{
    lemma_encoding_terminator(text);
    encode_utf8_valid_utf8(text);
    encode_utf8_decode_utf8(text);
}

/// A text with a terminator never reaches the boundary: each operation
/// that takes it yields an error and plans no call.
pub proof fn law_terminator_is_rejected(
    kind: EntityKind,
    located: SourceKind,
    id: u64,
    bad: Seq<char>,
    other: Seq<char>,
    number: u64,
    time: topt_UnixTime,
)
    requires
        !is_marshalable(bad),
    ensures
        marshal_text(bad) is Err,
        string_tag_plan(kind, id, bad, other) is Err,
        string_tag_plan(kind, id, other, bad) is Err,
        number_tag_plan(kind, id, bad, number) is Err,
        error_plan(kind, id, bad, other, other) is Err,
        error_plan(kind, id, other, bad, other) is Err,
        error_plan(kind, id, other, other, bad) is Err,
        source_plan(located, id, bad, None, None) is Err,
        module_create_plan(id, bad, other, other, time) is Err,
        suite_create_plan(id, bad, time) is Err,
        test_create_plan(id, bad, time) is Err,
        span_create_plan(id, bad, other, other, other, time) is Err,
        skip_plan(id, bad, time) is Err,
{
    lemma_encoding_terminator(bad);
    assert(bad.len() > 0);
}

/// For a live parent, a name without a terminator and any two timestamps,
/// creating an entity and closing it at once makes exactly two calls. The
/// first carries the parent, the name and the start time. The second
/// addresses the handle that the engine answered with, whatever valid
/// handle that is, and carries the finish time. Module, suite and test
/// alike.
pub proof fn law_create_then_close(
    parent: u64,
    name: Seq<char>,
    framework: Seq<char>,
    framework_version: Seq<char>,
    start_time: topt_UnixTime,
    created: Reply,
    status: TestStatus,
    finish_time: topt_UnixTime,
)
    requires
        parent != INVALID_HANDLE,
        is_marshalable(name),
        is_marshalable(framework),
        is_marshalable(framework_version),
        created.spec_handle() != INVALID_HANDLE,
    ensures
        module_create_plan(parent, name, framework, framework_version, start_time) == Ok::<
            PlanView,
            MarshalError,
        >(
            PlanView::Call(
                CallView::ModuleCreate {
                    session_id: parent,
                    name: encode_utf8(name),
                    framework: encode_utf8(framework),
                    framework_version: encode_utf8(framework_version),
                    start_time,
                },
            ),
        ),
        suite_create_plan(parent, name, start_time) == Ok::<PlanView, MarshalError>(
            PlanView::Call(
                CallView::SuiteCreate { module_id: parent, name: encode_utf8(name), start_time },
            ),
        ),
        test_create_plan(parent, name, start_time) == Ok::<PlanView, MarshalError>(
            PlanView::Call(
                CallView::TestCreate { suite_id: parent, name: encode_utf8(name), start_time },
            ),
        ),
        close_plan(CloseKind::Module, created.spec_handle(), finish_time) == PlanView::Call(
            CallView::Close { kind: CloseKind::Module, id: created.spec_handle(), finish_time },
        ),
        close_plan(CloseKind::Suite, created.spec_handle(), finish_time) == PlanView::Call(
            CallView::Close { kind: CloseKind::Suite, id: created.spec_handle(), finish_time },
        ),
        test_close_plan(created.spec_handle(), status, finish_time, None) == PlanView::Call(
            CallView::TestClose {
                test_id: created.spec_handle(),
                status: status.spec_code(),
                finish_time,
                skip_reason: None,
            },
        ),
{
    lemma_encoding_terminator(name);
    lemma_encoding_terminator(framework);
    lemma_encoding_terminator(framework_version);
}

/// A span opens under any valid handle and closes on its own: with texts
/// free of terminators, opening plans one call that carries the parent,
/// the texts and the start time, and closing plans one call that addresses
/// the span alone.
pub proof fn law_span_create_then_close(
    parent: u64,
    operation_name: Seq<char>,
    service_name: Seq<char>,
    resource_name: Seq<char>,
    span_type: Seq<char>,
    start_time: topt_UnixTime,
    created: Reply,
    finish_time: topt_UnixTime,
)
    requires
        parent != INVALID_HANDLE,
        is_marshalable(operation_name),
        is_marshalable(service_name),
        is_marshalable(resource_name),
        is_marshalable(span_type),
        created.spec_handle() != INVALID_HANDLE,
    ensures
        span_create_plan(
            parent,
            operation_name,
            service_name,
            resource_name,
            span_type,
            start_time,
        ) == Ok::<PlanView, MarshalError>(
            PlanView::Call(
                CallView::SpanCreate {
                    parent_id: parent,
                    operation_name: encode_utf8(operation_name),
                    service_name: encode_utf8(service_name),
                    resource_name: encode_utf8(resource_name),
                    span_type: encode_utf8(span_type),
                    start_time,
                },
            ),
        ),
        close_plan(CloseKind::Span, created.spec_handle(), finish_time) == PlanView::Call(
            CallView::Close { kind: CloseKind::Span, id: created.spec_handle(), finish_time },
        ),
{
    lemma_encoding_terminator(operation_name);
    lemma_encoding_terminator(service_name);
    lemma_encoding_terminator(resource_name);
    lemma_encoding_terminator(span_type);
}

/// A tag reaches the engine as it was written: for a valid entity and texts
/// free of terminators, setting a text tag plans one call that carries the
/// bytes of the key and of the value, and those bytes decode to the key and
/// the value again. Which write the engine keeps for a key is the engine's
/// doing; a tag array read back holds the last one.
pub proof fn law_tag_is_carried(kind: EntityKind, id: u64, key: Seq<char>, value: Seq<char>)
    requires
        id != INVALID_HANDLE,
        is_marshalable(key),
        is_marshalable(value),
    ensures
        string_tag_plan(kind, id, key, value) == Ok::<PlanView, MarshalError>(
            PlanView::Call(
                CallView::SetStringTag {
                    kind,
                    id,
                    key: encode_utf8(key),
                    value: encode_utf8(value),
                },
            ),
        ),
        decode_utf8(encode_utf8(key)) == key,
        decode_utf8(encode_utf8(value)) == value,
{
    law_text_reads_back(key);
    law_text_reads_back(value);
}

/// A test closed as skipped hands its reason to the engine exactly when
/// the reason is not empty: a reason that is not empty travels with the
/// close, the empty reason never does, and both closes carry the status of
/// a skipped test.
pub proof fn law_skip_reason(test_id: u64, reason: Seq<char>, finish_time: topt_UnixTime)
    requires
        test_id != INVALID_HANDLE,
        is_marshalable(reason),
    ensures
        reason.len() > 0 ==> skip_plan(test_id, reason, finish_time) == Ok::<
            PlanView,
            MarshalError,
        >(
            PlanView::Call(
                CallView::TestClose {
                    test_id,
                    status: TestStatus::Skip.spec_code(),
                    finish_time,
                    skip_reason: Some(encode_utf8(reason)),
                },
            ),
        ),
        reason.len() == 0 ==> skip_plan(test_id, reason, finish_time) == Ok::<
            PlanView,
            MarshalError,
        >(
            PlanView::Call(
                CallView::TestClose {
                    test_id,
                    status: TestStatus::Skip.spec_code(),
                    finish_time,
                    skip_reason: None,
                },
            ),
        ),
        skip_plan(test_id, Seq::<char>::empty(), finish_time) == Ok::<PlanView, MarshalError>(
            test_close_plan(test_id, TestStatus::Skip, finish_time, None),
        ),
{
    lemma_encoding_terminator(reason);
}

/// Benchmark data without entries is a success that makes no call,
/// whatever the test and whatever the measure type.
pub proof fn law_empty_benchmark_makes_no_call(test_id: u64, measure_type: Seq<char>)
    ensures
        benchmark_string_plan(test_id, measure_type, Seq::empty()) == Ok::<
            PlanView,
            MarshalError,
        >(PlanView::Settled(true)),
        benchmark_number_plan(test_id, measure_type, Seq::empty()) == Ok::<
            PlanView,
            MarshalError,
        >(PlanView::Settled(true)),
        PlanView::Settled(true).calls() == 0,
{
}

/// Coverage goes out as one batch of one report: for a valid test and file
/// names free of terminators, the plan is one call whose batch holds one
/// report, addressed by the three handles, with one record for each file
/// name, in order, each with an empty bitmap.
pub proof fn law_coverage_is_one_batch(
    session_id: u64,
    suite_id: u64,
    test_id: u64,
    files: Seq<Seq<char>>,
)
    requires
        test_id != INVALID_HANDLE,
        forall|i: int| 0 <= i < files.len() ==> is_marshalable(#[trigger] files[i]),
    ensures
        coverage_plan(session_id, suite_id, test_id, files) matches Ok(
            PlanView::Call(CallView::SendCodeCoverage { coverages }),
        ) && coverages.len() == 1 && coverages[0].session_id == session_id
            && coverages[0].suite_id == suite_id && coverages[0].test_id == test_id
            && coverages[0].files.len() == files.len() && forall|i: int|
            0 <= i < files.len() ==> (#[trigger] coverages[0].files[i]).filename == encode_utf8(
                files[i],
            ) && coverages[0].files[i].bitmap.len() == 0,
{
    let marshal = coverage_file_marshaler();
    lemma_marshal_all_ok(files, marshal);
    assert forall|i: int| 0 <= i < files.len() implies #[trigger] marshal(files[i]) is Ok by {
        lemma_encoding_terminator(files[i]);
    }
    let done = marshal_all(files, marshal)->Ok_0;
    assert forall|i: int| 0 <= i < files.len() implies (#[trigger] done[i]).filename
        == encode_utf8(files[i]) && done[i].bitmap.len() == 0 by {
        lemma_encoding_terminator(files[i]);
        assert(marshal(files[i]) == Ok::<crate::boundary::CoverageFileView, MarshalError>(done[i]));
    }
}

/// Where the engine does not come up, telemetry is off and nothing fails:
/// no session is created, the session holds the invalid handle, and so does
/// every entity made under it. On the invalid handle, and on a session that
/// has closed, every operation that can be planned settles as a failure
/// without a call.
pub proof fn law_failed_init_disables(
    initialized: Reply,
    session: TestSession,
    kind: EntityKind,
    closed: CloseKind,
    located: SourceKind,
    text: Seq<char>,
    number: u64,
    line: Option<i32>,
    status: TestStatus,
    time: topt_UnixTime,
    files: Seq<Seq<char>>,
    text_data: Seq<(Seq<char>, Seq<char>)>,
    number_data: Seq<(Seq<char>, u64)>,
    call: CallView,
)
    requires
        !initialized.spec_accepted(),
        !session.is_open(),
    ensures
        start_plan(initialized, time) == PlanView::Settled(false),
        Reply::Flag(flag_of(false)).spec_handle() == INVALID_HANDLE,
        !Reply::Flag(flag_of(false)).spec_accepted(),
        string_tag_plan(kind, INVALID_HANDLE, text, text) is Ok ==> string_tag_plan(
            kind,
            INVALID_HANDLE,
            text,
            text,
        ) == Ok::<PlanView, MarshalError>(PlanView::Settled(false)),
        number_tag_plan(kind, INVALID_HANDLE, text, number) is Ok ==> number_tag_plan(
            kind,
            INVALID_HANDLE,
            text,
            number,
        ) == Ok::<PlanView, MarshalError>(PlanView::Settled(false)),
        error_plan(kind, INVALID_HANDLE, text, text, text) is Ok ==> error_plan(
            kind,
            INVALID_HANDLE,
            text,
            text,
            text,
        ) == Ok::<PlanView, MarshalError>(PlanView::Settled(false)),
        source_plan(located, INVALID_HANDLE, text, line, line) is Ok ==> source_plan(
            located,
            INVALID_HANDLE,
            text,
            line,
            line,
        ) == Ok::<PlanView, MarshalError>(PlanView::Settled(false)),
        close_plan(closed, INVALID_HANDLE, time) == PlanView::Settled(false),
        test_close_plan(INVALID_HANDLE, status, time, None) == PlanView::Settled(false),
        skip_plan(INVALID_HANDLE, text, time) is Ok ==> skip_plan(INVALID_HANDLE, text, time)
            == Ok::<PlanView, MarshalError>(PlanView::Settled(false)),
        module_create_plan(INVALID_HANDLE, text, text, text, time) is Ok ==> module_create_plan(
            INVALID_HANDLE,
            text,
            text,
            text,
            time,
        ) == Ok::<PlanView, MarshalError>(PlanView::Settled(false)),
        suite_create_plan(INVALID_HANDLE, text, time) is Ok ==> suite_create_plan(
            INVALID_HANDLE,
            text,
            time,
        ) == Ok::<PlanView, MarshalError>(PlanView::Settled(false)),
        test_create_plan(INVALID_HANDLE, text, time) is Ok ==> test_create_plan(
            INVALID_HANDLE,
            text,
            time,
        ) == Ok::<PlanView, MarshalError>(PlanView::Settled(false)),
        span_create_plan(INVALID_HANDLE, text, text, text, text, time) is Ok ==> span_create_plan(
            INVALID_HANDLE,
            text,
            text,
            text,
            text,
            time,
        ) == Ok::<PlanView, MarshalError>(PlanView::Settled(false)),
        coverage_plan(INVALID_HANDLE, INVALID_HANDLE, INVALID_HANDLE, files) is Ok
            ==> coverage_plan(INVALID_HANDLE, INVALID_HANDLE, INVALID_HANDLE, files) == Ok::<
            PlanView,
            MarshalError,
        >(PlanView::Settled(false)),
        benchmark_string_plan(INVALID_HANDLE, text, text_data) is Ok ==> benchmark_string_plan(
            INVALID_HANDLE,
            text,
            text_data,
        )->Ok_0.calls() == 0,
        benchmark_number_plan(INVALID_HANDLE, text, number_data) is Ok ==> benchmark_number_plan(
            INVALID_HANDLE,
            text,
            number_data,
        )->Ok_0.calls() == 0,
        session.close_plan(0, false, time) == PlanView::Settled(false),
        session.fetch_plan(call) == PlanView::Settled(false),
        session.live_handle() == INVALID_HANDLE,
{
}

} // verus!
