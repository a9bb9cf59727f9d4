//! What every kind of entity shares: tags, error information, source
//! location and closing.
//!
//! Each operation marshals its texts first, so that a text with an embedded
//! terminator is rejected before any call is planned. An operation on the
//! invalid handle then settles as a failure without a call.

use crate::boundary::planned_view;
use crate::boundary::Call;
use crate::boundary::CallView;
use crate::boundary::Plan;
use crate::boundary::PlanView;
use crate::text::marshal_text;
use crate::text::CText;
use crate::text::MarshalError;
use crate::time::topt_UnixTime;
use crate::wire::CloseKind;
use crate::wire::EntityKind;
use crate::wire::SourceKind;
use crate::wire::INVALID_HANDLE;
use vstd::prelude::*;

verus! {

/// The plan for a call that addresses the entity `id`: the call itself, or a
/// settled failure where `id` is the invalid handle.
pub open spec fn guarded(id: u64, call: CallView) -> PlanView {
    if id == INVALID_HANDLE {
        PlanView::Settled(false)
    } else {
        PlanView::Call(call)
    }
}

/// The plan for setting a text tag on an entity.
pub open spec fn string_tag_plan(
    kind: EntityKind,
    id: u64,
    key: Seq<char>,
    value: Seq<char>,
) -> Result<PlanView, MarshalError> {
    match (marshal_text(key), marshal_text(value)) {
        (Err(e), _) => Err(e),
        (_, Err(e)) => Err(e),
        (Ok(key), Ok(value)) => Ok(guarded(id, CallView::SetStringTag { kind, id, key, value })),
    }
}

/// The plan for setting a numeric tag on an entity.
pub open spec fn number_tag_plan(
    kind: EntityKind,
    id: u64,
    key: Seq<char>,
    value_bits: u64,
) -> Result<PlanView, MarshalError> {
    match marshal_text(key) {
        Err(e) => Err(e),
        Ok(key) => Ok(guarded(id, CallView::SetNumberTag { kind, id, key, value_bits })),
    }
}

/// The plan for attaching error information to an entity.
pub open spec fn error_plan(
    kind: EntityKind,
    id: u64,
    error_type: Seq<char>,
    error_message: Seq<char>,
    error_stacktrace: Seq<char>,
) -> Result<PlanView, MarshalError> {
    match (marshal_text(error_type), marshal_text(error_message), marshal_text(error_stacktrace)) {
        (Err(e), _, _) => Err(e),
        (_, Err(e), _) => Err(e),
        (_, _, Err(e)) => Err(e),
        (Ok(error_type), Ok(error_message), Ok(error_stacktrace)) => Ok(
            guarded(
                id,
                CallView::SetError { kind, id, error_type, error_message, error_stacktrace },
            ),
        ),
    }
}

/// The plan for setting the source location of a suite or a test. Either
/// line bound may be absent.
pub open spec fn source_plan(
    kind: SourceKind,
    id: u64,
    file: Seq<char>,
    start_line: Option<i32>,
    end_line: Option<i32>,
) -> Result<PlanView, MarshalError> {
    match marshal_text(file) {
        Err(e) => Err(e),
        Ok(file) => Ok(guarded(id, CallView::SetSource { kind, id, file, start_line, end_line })),
    }
}

/// The plan for closing a module, a suite or a span.
pub open spec fn close_plan(kind: CloseKind, id: u64, finish_time: topt_UnixTime) -> PlanView {
    guarded(id, CallView::Close { kind, id, finish_time })
}

/// Plans a call that addresses the entity `id`.
pub fn plan_guarded(id: u64, call: Call) -> (plan: Plan)
    ensures
        plan@ == guarded(id, call@),
{
    if id == INVALID_HANDLE {
        Plan::Settled(false)
    } else {
        Plan::Call(call)
    }
}

/// Plans setting a text tag on an entity.
pub fn plan_string_tag(kind: EntityKind, id: u64, key: &str, value: &str) -> (r: Result<
    Plan,
    MarshalError,
>)
    ensures
        planned_view(r) == string_tag_plan(kind, id, key@, value@),
{
    let key = match CText::new(key) {
        Ok(text) => text,
        Err(e) => {
            return Err(e);
        },
    };
    let value = match CText::new(value) {
        Ok(text) => text,
        Err(e) => {
            return Err(e);
        },
    };
    Ok(plan_guarded(id, Call::SetStringTag { kind, id, key, value }))
}

/// Plans setting a numeric tag on an entity. The number is given as the bits
/// of its 64-bit floating-point form.
pub fn plan_number_tag(kind: EntityKind, id: u64, key: &str, value_bits: u64) -> (r: Result<
    Plan,
    MarshalError,
>)
    ensures
        planned_view(r) == number_tag_plan(kind, id, key@, value_bits),
{
    let key = match CText::new(key) {
        Ok(text) => text,
        Err(e) => {
            return Err(e);
        },
    };
    Ok(plan_guarded(id, Call::SetNumberTag { kind, id, key, value_bits }))
}

/// Plans attaching error information to an entity.
pub fn plan_error(
    kind: EntityKind,
    id: u64,
    error_type: &str,
    error_message: &str,
    error_stacktrace: &str,
) -> (r: Result<Plan, MarshalError>)
    ensures
        planned_view(r) == error_plan(
            kind,
            id,
            error_type@,
            error_message@,
            error_stacktrace@,
        ),
{
    let error_type = match CText::new(error_type) {
        Ok(text) => text,
        Err(e) => {
            return Err(e);
        },
    };
    let error_message = match CText::new(error_message) {
        Ok(text) => text,
        Err(e) => {
            return Err(e);
        },
    };
    let error_stacktrace = match CText::new(error_stacktrace) {
        Ok(text) => text,
        Err(e) => {
            return Err(e);
        },
    };
    Ok(plan_guarded(id, Call::SetError { kind, id, error_type, error_message, error_stacktrace }))
}

/// Plans setting the source location of a suite or a test.
pub fn plan_source(
    kind: SourceKind,
    id: u64,
    file: &str,
    start_line: Option<i32>,
    end_line: Option<i32>,
) -> (r: Result<Plan, MarshalError>)
    ensures
        planned_view(r) == source_plan(kind, id, file@, start_line, end_line),
{
    let file = match CText::new(file) {
        Ok(text) => text,
        Err(e) => {
            return Err(e);
        },
    };
    Ok(plan_guarded(id, Call::SetSource { kind, id, file, start_line, end_line }))
}

/// Plans closing a module, a suite or a span.
pub fn plan_close(kind: CloseKind, id: u64, finish_time: topt_UnixTime) -> (plan: Plan)
    ensures
        plan@ == close_plan(kind, id, finish_time),
{
    plan_guarded(id, Call::Close { kind, id, finish_time })
}

} // verus!
