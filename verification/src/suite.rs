//! The suite: a group of tests under a module, most often one source file.

use crate::boundary::planned_view;
use crate::boundary::Call;
use crate::boundary::CallView;
use crate::boundary::Plan;
use crate::boundary::PlanView;
use crate::boundary::Reply;
use crate::entity::close_plan;
use crate::entity::error_plan;
use crate::entity::guarded;
use crate::entity::number_tag_plan;
use crate::entity::plan_close;
use crate::entity::plan_error;
use crate::entity::plan_guarded;
use crate::entity::plan_number_tag;
use crate::entity::plan_source;
use crate::entity::plan_string_tag;
use crate::entity::source_plan;
use crate::entity::string_tag_plan;
use crate::module::TestModule;
use crate::test_case::Test;
use crate::text::marshal_text;
use crate::text::CText;
use crate::text::MarshalError;
use crate::time::topt_UnixTime;
use crate::wire::CloseKind;
use crate::wire::EntityKind;
use crate::wire::SourceKind;
use vstd::prelude::*;

verus! {

/// A suite, by its handle and the handles of its module and session. The
/// parents' handles are a way back and nothing more.
#[derive(Debug, Clone, Copy, PartialEq, Eq, Structural)]
pub struct TestSuite {
    pub suite_id: u64,
    pub module_id: u64,
    pub session_id: u64,
}

/// The plan for creating a test under the suite `suite_id`.
pub open spec fn test_create_plan(suite_id: u64, name: Seq<char>, start_time: topt_UnixTime) -> Result<
    PlanView,
    MarshalError,
> {
    match marshal_text(name) {
        Err(e) => Err(e),
        Ok(name) => Ok(guarded(suite_id, CallView::TestCreate { suite_id, name, start_time })),
    }
}

impl TestSuite {
    /// The module of the suite.
    pub open spec fn module(&self) -> TestModule {
        TestModule { session_id: self.session_id, module_id: self.module_id }
    }

    /// The module of the suite.
    pub fn get_module(&self) -> (module: TestModule)
        ensures
            module == self.module(),
    {
        TestModule { module_id: self.module_id, session_id: self.session_id }
    }

    /// Plans setting a text tag on the suite.
    pub fn set_string_tag(&self, key: &str, value: &str) -> (r: Result<Plan, MarshalError>)
        ensures
            planned_view(r) == string_tag_plan(EntityKind::Suite, self.suite_id, key@, value@),
    {
        plan_string_tag(EntityKind::Suite, self.suite_id, key, value)
    }

    /// Plans setting a numeric tag on the suite. The number is given as the
    /// bits of its 64-bit floating-point form.
    pub fn set_number_tag(&self, key: &str, value_bits: u64) -> (r: Result<Plan, MarshalError>)
        ensures
            planned_view(r) == number_tag_plan(EntityKind::Suite, self.suite_id, key@, value_bits),
    {
        plan_number_tag(EntityKind::Suite, self.suite_id, key, value_bits)
    }

    /// Plans attaching error information to the suite.
    pub fn set_error_info(&self, error_type: &str, error_message: &str, error_stacktrace: &str) -> (r:
        Result<Plan, MarshalError>)
        ensures
            planned_view(r) == error_plan(
                EntityKind::Suite,
                self.suite_id,
                error_type@,
                error_message@,
                error_stacktrace@,
            ),
    {
        plan_error(EntityKind::Suite, self.suite_id, error_type, error_message, error_stacktrace)
    }

    /// Plans setting the source location of the suite. Either line bound may
    /// be absent.
    pub fn set_test_source(&self, file: &str, start_line: Option<i32>, end_line: Option<i32>) -> (r:
        Result<Plan, MarshalError>)
        ensures
            planned_view(r) == source_plan(
                SourceKind::Suite,
                self.suite_id,
                file@,
                start_line,
                end_line,
            ),
    {
        plan_source(SourceKind::Suite, self.suite_id, file, start_line, end_line)
    }

    /// Plans closing the suite.
    pub fn close(&self, finish_time: topt_UnixTime) -> (plan: Plan)
        ensures
            plan@ == close_plan(CloseKind::Suite, self.suite_id, finish_time),
    {
        plan_close(CloseKind::Suite, self.suite_id, finish_time)
    }

    /// Plans the creation of a test under the suite.
    pub fn create_test(&self, name: &str, start_time: topt_UnixTime) -> (r: Result<
        Plan,
        MarshalError,
    >)
        ensures
            planned_view(r) == test_create_plan(self.suite_id, name@, start_time),
    {
        let name = match CText::new(name) {
            Ok(text) => text,
            Err(e) => {
                return Err(e);
            },
        };
        Ok(
            plan_guarded(
                self.suite_id,
                Call::TestCreate { suite_id: self.suite_id, name, start_time },
            ),
        )
    }

    /// The test that the engine's answer to its creation stands for.
    pub fn test_from_reply(&self, created: &Reply) -> (test: Test)
        ensures
            test.test_id == created.spec_handle(),
            test.suite() == *self,
    {
        Test {
            test_id: created.handle(),
            suite_id: self.suite_id,
            module_id: self.module_id,
            session_id: self.session_id,
        }
    }
}

} // verus!
