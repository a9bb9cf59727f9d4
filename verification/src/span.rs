//! The span: a free-standing timed annotation under any entity.
//!
//! The parent of a span serves to correlate traces. It does not own the
//! span: a span is closed on its own, in any order among its siblings.

use crate::boundary::planned_view;
use crate::boundary::Call;
use crate::boundary::CallView;
use crate::boundary::Plan;
use crate::boundary::PlanView;
use crate::boundary::Reply;
use crate::entity::close_plan;
use crate::entity::error_plan;
use crate::entity::guarded;
use crate::entity::number_tag_plan;
use crate::entity::plan_close;
use crate::entity::plan_error;
use crate::entity::plan_guarded;
use crate::entity::plan_number_tag;
use crate::entity::plan_string_tag;
use crate::entity::string_tag_plan;
use crate::text::marshal_text;
use crate::text::CText;
use crate::text::MarshalError;
use crate::time::topt_UnixTime;
use crate::wire::CloseKind;
use crate::wire::EntityKind;
use vstd::prelude::*;

verus! {

/// A span, by its handle and the handle of the entity it was opened under.
#[derive(Debug, Clone, Copy, PartialEq, Eq, Structural)]
pub struct Span {
    pub span_id: u64,
    pub parent_id: u64,
}

/// The plan for opening a span under the entity `parent_id`: the four texts
/// are marshaled in order, and the span starts without tags.
pub open spec fn span_create_plan(
    parent_id: u64,
    operation_name: Seq<char>,
    service_name: Seq<char>,
    resource_name: Seq<char>,
    span_type: Seq<char>,
    start_time: topt_UnixTime,
) -> Result<PlanView, MarshalError> {
    match (
        marshal_text(operation_name),
        marshal_text(service_name),
        marshal_text(resource_name),
        marshal_text(span_type),
    ) {
        (Err(e), _, _, _) => Err(e),
        (_, Err(e), _, _) => Err(e),
        (_, _, Err(e), _) => Err(e),
        (_, _, _, Err(e)) => Err(e),
        (Ok(operation_name), Ok(service_name), Ok(resource_name), Ok(span_type)) => Ok(
            guarded(
                parent_id,
                CallView::SpanCreate {
                    parent_id,
                    operation_name,
                    service_name,
                    resource_name,
                    span_type,
                    start_time,
                },
            ),
        ),
    }
}

impl Span {
    /// Plans opening a span under the entity `parent_id`.
    pub fn create(
        parent_id: u64,
        operation_name: &str,
        service_name: &str,
        resource_name: &str,
        span_type: &str,
        start_time: topt_UnixTime,
    ) -> (r: Result<Plan, MarshalError>)
        ensures
            planned_view(r) == span_create_plan(
                parent_id,
                operation_name@,
                service_name@,
                resource_name@,
                span_type@,
                start_time,
            ),
    {
        let operation_name = match CText::new(operation_name) {
            Ok(text) => text,
            Err(e) => {
                return Err(e);
            },
        };
        let service_name = match CText::new(service_name) {
            Ok(text) => text,
            Err(e) => {
                return Err(e);
            },
        };
        let resource_name = match CText::new(resource_name) {
            Ok(text) => text,
            Err(e) => {
                return Err(e);
            },
        };
        let span_type = match CText::new(span_type) {
            Ok(text) => text,
            Err(e) => {
                return Err(e);
            },
        };
        Ok(
            plan_guarded(
                parent_id,
                Call::SpanCreate {
                    parent_id,
                    operation_name,
                    service_name,
                    resource_name,
                    span_type,
                    start_time,
                },
            ),
        )
    }

    /// The span that the engine's answer to its creation stands for.
    pub fn from_reply(parent_id: u64, created: &Reply) -> (span: Span)
        ensures
            span == (Span { span_id: created.spec_handle(), parent_id }),
    {
        Span { span_id: created.handle(), parent_id }
    }

    /// Plans setting a text tag on the span.
    pub fn set_string_tag(&self, key: &str, value: &str) -> (r: Result<Plan, MarshalError>)
        ensures
            planned_view(r) == string_tag_plan(EntityKind::Span, self.span_id, key@, value@),
    {
        plan_string_tag(EntityKind::Span, self.span_id, key, value)
    }

    /// Plans setting a numeric tag on the span. The number is given as the
    /// bits of its 64-bit floating-point form.
    pub fn set_number_tag(&self, key: &str, value_bits: u64) -> (r: Result<Plan, MarshalError>)
        ensures
            planned_view(r) == number_tag_plan(EntityKind::Span, self.span_id, key@, value_bits),
    {
        plan_number_tag(EntityKind::Span, self.span_id, key, value_bits)
    }

    /// Plans attaching error information to the span.
    pub fn set_error_info(&self, error_type: &str, error_message: &str, error_stacktrace: &str) -> (r:
        Result<Plan, MarshalError>)
        ensures
            planned_view(r) == error_plan(
                EntityKind::Span,
                self.span_id,
                error_type@,
                error_message@,
                error_stacktrace@,
            ),
    {
        plan_error(EntityKind::Span, self.span_id, error_type, error_message, error_stacktrace)
    }

    /// Plans closing the span.
    pub fn close(&self, finish_time: topt_UnixTime) -> (plan: Plan)
        ensures
            plan@ == close_plan(CloseKind::Span, self.span_id, finish_time),
    {
        plan_close(CloseKind::Span, self.span_id, finish_time)
    }
}

} // verus!
