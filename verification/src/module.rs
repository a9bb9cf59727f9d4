//! The module: one invocation of a test framework under a session.

use crate::boundary::planned_view;
use crate::boundary::Call;
use crate::boundary::CallView;
use crate::boundary::Plan;
use crate::boundary::PlanView;
use crate::boundary::Reply;
use crate::entity::close_plan;
use crate::entity::error_plan;
use crate::entity::guarded;
use crate::entity::number_tag_plan;
use crate::entity::plan_close;
use crate::entity::plan_error;
use crate::entity::plan_guarded;
use crate::entity::plan_number_tag;
use crate::entity::plan_string_tag;
use crate::entity::string_tag_plan;
use crate::suite::TestSuite;
use crate::text::marshal_text;
use crate::text::CText;
use crate::text::MarshalError;
use crate::time::topt_UnixTime;
use crate::wire::CloseKind;
use crate::wire::EntityKind;
use vstd::prelude::*;

verus! {

/// A module, by its handle and the handle of its session. The session's
/// handle is a way back to the parent and nothing more: closing the module
/// leaves the session as it is.
#[derive(Debug, Clone, Copy, PartialEq, Eq, Structural)]
pub struct TestModule {
    pub session_id: u64,
    pub module_id: u64,
}

/// The plan for creating a suite under the module `module_id`.
pub open spec fn suite_create_plan(module_id: u64, name: Seq<char>, start_time: topt_UnixTime) -> Result<
    PlanView,
    MarshalError,
> {
    match marshal_text(name) {
        Err(e) => Err(e),
        Ok(name) => Ok(guarded(module_id, CallView::SuiteCreate { module_id, name, start_time })),
    }
}

impl TestModule {
    /// Plans setting a text tag on the module.
    pub fn set_string_tag(&self, key: &str, value: &str) -> (r: Result<Plan, MarshalError>)
        ensures
            planned_view(r) == string_tag_plan(EntityKind::Module, self.module_id, key@, value@),
    {
        plan_string_tag(EntityKind::Module, self.module_id, key, value)
    }

    /// Plans setting a numeric tag on the module. The number is given as the
    /// bits of its 64-bit floating-point form.
    pub fn set_number_tag(&self, key: &str, value_bits: u64) -> (r: Result<Plan, MarshalError>)
        ensures
            planned_view(r) == number_tag_plan(
                EntityKind::Module,
                self.module_id,
                key@,
                value_bits,
            ),
    {
        plan_number_tag(EntityKind::Module, self.module_id, key, value_bits)
    }

    /// Plans attaching error information to the module.
    pub fn set_error_info(&self, error_type: &str, error_message: &str, error_stacktrace: &str) -> (r:
        Result<Plan, MarshalError>)
        ensures
            planned_view(r) == error_plan(
                EntityKind::Module,
                self.module_id,
                error_type@,
                error_message@,
                error_stacktrace@,
            ),
    {
        plan_error(EntityKind::Module, self.module_id, error_type, error_message, error_stacktrace)
    }

    /// Plans closing the module.
    pub fn close(&self, finish_time: topt_UnixTime) -> (plan: Plan)
        ensures
            plan@ == close_plan(CloseKind::Module, self.module_id, finish_time),
    {
        plan_close(CloseKind::Module, self.module_id, finish_time)
    }

    /// Plans the creation of a suite under the module.
    pub fn create_test_suite(&self, name: &str, start_time: topt_UnixTime) -> (r: Result<
        Plan,
        MarshalError,
    >)
        ensures
            planned_view(r) == suite_create_plan(self.module_id, name@, start_time),
    {
        let name = match CText::new(name) {
            Ok(text) => text,
            Err(e) => {
                return Err(e);
            },
        };
        Ok(
            plan_guarded(
                self.module_id,
                Call::SuiteCreate { module_id: self.module_id, name, start_time },
            ),
        )
    }

    /// The suite that the engine's answer to its creation stands for.
    pub fn suite_from_reply(&self, created: &Reply) -> (suite: TestSuite)
        ensures
            suite.suite_id == created.spec_handle(),
            suite.module_id == self.module_id,
            suite.session_id == self.session_id,
    {
        TestSuite {
            suite_id: created.handle(),
            module_id: self.module_id,
            session_id: self.session_id,
        }
    }
}

} // verus!
