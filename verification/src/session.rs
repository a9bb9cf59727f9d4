//! The session: the root entity of a run, and the lifecycle of the engine
//! that goes with it.
//!
//! A session is brought up in three steps. [`TestSession::init_with_values`]
//! plans the initialization of the engine. [`TestSession::start`] reads the
//! answer and plans the creation of the session, or settles on a failure.
//! [`TestSession::from_reply`] reads the handle. A failed bring-up leaves a
//! session with the invalid handle, on which every operation settles as a
//! failure without a call: telemetry is off and the run goes on.

use crate::boundary::planned_view;
use crate::boundary::Call;
use crate::boundary::CallView;
use crate::boundary::Plan;
use crate::boundary::PlanView;
use crate::boundary::Reply;
use crate::entity::error_plan;
use crate::entity::guarded;
use crate::entity::number_tag_plan;
use crate::entity::plan_error;
use crate::entity::plan_guarded;
use crate::entity::plan_number_tag;
use crate::entity::plan_string_tag;
use crate::entity::string_tag_plan;
use crate::module::TestModule;
use crate::text::is_marshalable;
use crate::text::lemma_encoding_terminator;
use crate::text::marshal_text;
use crate::text::CText;
use crate::text::MarshalError;
use crate::time::topt_UnixTime;
use crate::wire::bool_to_wire;
use crate::wire::flag_of;
use crate::wire::EntityKind;
use crate::wire::INVALID_HANDLE;
use vstd::prelude::*;

verus! {

/// The language that a session reports by default.
pub const LANGUAGE_NAME: &'static str = "rust";

/// The runtime that a session reports by default.
pub const RUNTIME_NAME: &'static str = "rustc";

/// The exit code that stands for a failed run.
pub const FAILURE_EXIT_CODE: i32 = 1;

/// The root entity of a run: its handle, and whether it has been closed.
/// The invalid handle stands for a session that never came up.
#[derive(Debug, PartialEq, Eq, Structural)]
pub struct TestSession {
    pub session_id: u64,
    pub closed: bool,
}

/// An optional text seen as its characters.
pub open spec fn optional_str_view(text: Option<&str>) -> Option<Seq<char>> {
    match text {
        Some(t) => Some(t@),
        None => None,
    }
}

/// What marshaling an optional text yields.
pub open spec fn marshal_optional_text(text: Option<Seq<char>>) -> Result<
    Option<Seq<u8>>,
    MarshalError,
> {
    match text {
        None => Ok(None),
        Some(t) => match marshal_text(t) {
            Ok(bytes) => Ok(Some(bytes)),
            Err(e) => Err(e),
        },
    }
}

/// The plan for initializing the engine: one call that carries the four
/// texts and the mock-tracer flag, or the error of the first text that
/// cannot be marshaled.
pub open spec fn init_plan(
    language_name: Seq<char>,
    runtime_name: Seq<char>,
    runtime_version: Seq<char>,
    working_directory: Option<Seq<char>>,
    use_mock_tracer: bool,
) -> Result<PlanView, MarshalError> {
    match (
        marshal_text(language_name),
        marshal_text(runtime_name),
        marshal_text(runtime_version),
        marshal_optional_text(working_directory),
    ) {
        (Err(e), _, _, _) => Err(e),
        (_, Err(e), _, _) => Err(e),
        (_, _, Err(e), _) => Err(e),
        (_, _, _, Err(e)) => Err(e),
        (Ok(language), Ok(runtime_name), Ok(runtime_version), Ok(working_directory)) => Ok(
            PlanView::Call(
                CallView::Initialize {
                    language,
                    runtime_name,
                    runtime_version,
                    working_directory,
                    use_mock_tracer: flag_of(use_mock_tracer),
                },
            ),
        ),
    }
}

/// The plan that follows the engine's answer to its initialization: create
/// the session where the engine came up, settle on a failure where not.
pub open spec fn start_plan(initialized: Reply, start_time: topt_UnixTime) -> PlanView {
    if initialized.spec_accepted() {
        PlanView::Call(CallView::SessionCreate { start_time })
    } else {
        PlanView::Settled(false)
    }
}

/// The exit code that a closing session reports: the failure code while the
/// caller is unwinding from a failure, else the code given.
pub open spec fn reported_exit_code(exit_code: i32, unwinding: bool) -> i32 {
    if unwinding {
        FAILURE_EXIT_CODE
    } else {
        exit_code
    }
}

/// The plan for creating a module under the session with the live handle
/// `session_id`.
pub open spec fn module_create_plan(
    session_id: u64,
    name: Seq<char>,
    framework_name: Seq<char>,
    framework_version: Seq<char>,
    start_time: topt_UnixTime,
) -> Result<PlanView, MarshalError> {
    match (marshal_text(name), marshal_text(framework_name), marshal_text(framework_version)) {
        (Err(e), _, _) => Err(e),
        (_, Err(e), _) => Err(e),
        (_, _, Err(e)) => Err(e),
        (Ok(name), Ok(framework), Ok(framework_version)) => Ok(
            guarded(
                session_id,
                CallView::ModuleCreate { session_id, name, framework, framework_version, start_time },
            ),
        ),
    }
}

impl TestSession {
    /// Whether the session is live: created by the engine and not closed.
    pub open spec fn is_open(&self) -> bool {
        self.session_id != INVALID_HANDLE && !self.closed
    }

    /// The handle under which the session can still be addressed: its own
    /// while it is live, the invalid handle after.
    pub open spec fn live_handle(&self) -> u64 {
        if self.closed {
            INVALID_HANDLE
        } else {
            self.session_id
        }
    }

    /// The session after a close: closed if it was live, unchanged if not.
    pub open spec fn after_close(self) -> TestSession {
        if self.is_open() {
            TestSession { session_id: self.session_id, closed: true }
        } else {
            self
        }
    }

    /// The plan for closing the session: close it with the exit code to
    /// report, then shut the engine down; for a session that is not live, a
    /// settled failure.
    pub open spec fn close_plan(
        self,
        exit_code: i32,
        unwinding: bool,
        finish_time: topt_UnixTime,
    ) -> PlanView {
        if self.is_open() {
            PlanView::CallThen(
                CallView::SessionClose {
                    session_id: self.session_id,
                    exit_code: reported_exit_code(exit_code, unwinding),
                    finish_time,
                },
                CallView::Shutdown,
            )
        } else {
            PlanView::Settled(false)
        }
    }

    /// The plan for a call that takes no argument and needs a live session.
    pub open spec fn fetch_plan(self, call: CallView) -> PlanView {
        if self.is_open() {
            PlanView::Call(call)
        } else {
            PlanView::Settled(false)
        }
    }

    fn handle(&self) -> (id: u64)
        ensures
            id == self.live_handle(),
    {
        if self.closed {
            INVALID_HANDLE
        } else {
            self.session_id
        }
    }

    /// `rustc_version_runtime::version`, rendered as text by its `Display`:
    /// the version of the compiler that built the crate, as three numbers
    /// joined by dots, then a pre-release part after a hyphen and a build
    /// part after a plus sign where it has them. Both parts are made of
    /// ASCII letters, digits, hyphens and dots alone, so the text holds no
    /// terminator character. No more is claimed of it.
    #[verifier::external_body]
    pub fn runtime_version() -> (version: String)
        ensures
            is_marshalable(version@),
    {
        rustc_version_runtime::version().to_string()
    }

    /// Plans the initialization of the engine with the default language and
    /// runtime, the version of the compiler, no working directory and the
    /// real tracer.
    pub fn init() -> (r: Result<Plan, MarshalError>)
        ensures
            r is Ok,
            exists|version: Seq<char>|
                is_marshalable(version) && planned_view(r) == #[trigger] init_plan(
                    LANGUAGE_NAME@,
                    RUNTIME_NAME@,
                    version,
                    None,
                    false,
                ),
    {
        let version = Self::runtime_version();
        Self::init_defaults(version.as_str(), None, false)
    }

    /// As [`TestSession::init`], with a working directory.
    pub fn init_with_working_dir(working_dir: &str) -> (r: Result<Plan, MarshalError>)
        ensures
            r is Ok <==> is_marshalable(working_dir@),
            exists|version: Seq<char>|
                is_marshalable(version) && planned_view(r) == #[trigger] init_plan(
                    LANGUAGE_NAME@,
                    RUNTIME_NAME@,
                    version,
                    Some(working_dir@),
                    false,
                ),
    {
        let version = Self::runtime_version();
        Self::init_defaults(version.as_str(), Some(working_dir), false)
    }

    /// As [`TestSession::init`], with the mock tracer of the engine.
    pub fn init_mock() -> (r: Result<Plan, MarshalError>)
        ensures
            r is Ok,
            exists|version: Seq<char>|
                is_marshalable(version) && planned_view(r) == #[trigger] init_plan(
                    LANGUAGE_NAME@,
                    RUNTIME_NAME@,
                    version,
                    None,
                    true,
                ),
    {
        let version = Self::runtime_version();
        Self::init_defaults(version.as_str(), None, true)
    }

    /// As [`TestSession::init_mock`], with a working directory.
    pub fn init_mock_with_working_dir(working_dir: &str) -> (r: Result<Plan, MarshalError>)
        ensures
            r is Ok <==> is_marshalable(working_dir@),
            exists|version: Seq<char>|
                is_marshalable(version) && planned_view(r) == #[trigger] init_plan(
                    LANGUAGE_NAME@,
                    RUNTIME_NAME@,
                    version,
                    Some(working_dir@),
                    true,
                ),
    {
        let version = Self::runtime_version();
        Self::init_defaults(version.as_str(), Some(working_dir), true)
    }

    /// Plans the initialization with the default language and runtime and a
    /// runtime version that holds no terminator.
    fn init_defaults(runtime_version: &str, working_directory: Option<&str>, use_mock_tracer: bool) -> (r:
        Result<Plan, MarshalError>)
        requires
            is_marshalable(runtime_version@),
        ensures
            planned_view(r) == init_plan(
                LANGUAGE_NAME@,
                RUNTIME_NAME@,
                runtime_version@,
                optional_str_view(working_directory),
                use_mock_tracer,
            ),
            r is Ok <==> (working_directory matches Some(w) ==> is_marshalable(w@)),
    {
        proof {
            reveal_strlit("rust");
            reveal_strlit("rustc");
            assert(is_marshalable(LANGUAGE_NAME@));
            assert(is_marshalable(RUNTIME_NAME@));
            lemma_encoding_terminator(LANGUAGE_NAME@);
            lemma_encoding_terminator(RUNTIME_NAME@);
            lemma_encoding_terminator(runtime_version@);
            if let Some(w) = working_directory {
                lemma_encoding_terminator(w@);
            }
        }
        Self::init_with_values(
            LANGUAGE_NAME,
            RUNTIME_NAME,
            runtime_version,
            working_directory,
            use_mock_tracer,
        )
    }

    /// Plans the initialization of the engine: marshals the language, the
    /// runtime name, the runtime version and, where given, the working
    /// directory, in this order, and plans the one call that carries them
    /// with the mock-tracer flag.
    pub fn init_with_values(
        language_name: &str,
        runtime_name: &str,
        runtime_version: &str,
        working_directory: Option<&str>,
        use_mock_tracer: bool,
    ) -> (r: Result<Plan, MarshalError>)
        ensures
            planned_view(r) == init_plan(
                language_name@,
                runtime_name@,
                runtime_version@,
                optional_str_view(working_directory),
                use_mock_tracer,
            ),
    {
        let language = match CText::new(language_name) {
            Ok(text) => text,
            Err(e) => {
                return Err(e);
            },
        };
        let runtime_name = match CText::new(runtime_name) {
            Ok(text) => text,
            Err(e) => {
                return Err(e);
            },
        };
        let runtime_version = match CText::new(runtime_version) {
            Ok(text) => text,
            Err(e) => {
                return Err(e);
            },
        };
        let working_directory = match working_directory {
            None => None,
            Some(directory) => match CText::new(directory) {
                Ok(text) => Some(text),
                Err(e) => {
                    return Err(e);
                },
            },
        };
        Ok(
            Plan::Call(
                Call::Initialize {
                    language,
                    runtime_name,
                    runtime_version,
                    working_directory,
                    use_mock_tracer: bool_to_wire(use_mock_tracer),
                },
            ),
        )
    }

    /// Reads the engine's answer to its initialization and plans the next
    /// step: the creation of the session, or nothing more where the engine
    /// did not come up.
    pub fn start(initialized: &Reply, start_time: topt_UnixTime) -> (plan: Plan)
        ensures
            plan@ == start_plan(*initialized, start_time),
    {
        if initialized.accepted() {
            Plan::Call(Call::SessionCreate { start_time })
        } else {
            Plan::Settled(false)
        }
    }

    /// The session that the engine's answer to its creation stands for: live
    /// under the handle that the answer carries, or invalid where it carries
    /// none.
    pub fn from_reply(created: &Reply) -> (session: TestSession)
        ensures
            session == (TestSession { session_id: created.spec_handle(), closed: false }),
    {
        TestSession { session_id: created.handle(), closed: false }
    }

    /// Plans setting a text tag on the session.
    pub fn set_string_tag(&self, key: &str, value: &str) -> (r: Result<Plan, MarshalError>)
        ensures
            planned_view(r) == string_tag_plan(
                EntityKind::Session,
                self.live_handle(),
                key@,
                value@,
            ),
    {
        plan_string_tag(EntityKind::Session, self.handle(), key, value)
    }

    /// Plans setting a numeric tag on the session. The number is given as
    /// the bits of its 64-bit floating-point form.
    pub fn set_number_tag(&self, key: &str, value_bits: u64) -> (r: Result<Plan, MarshalError>)
        ensures
            planned_view(r) == number_tag_plan(
                EntityKind::Session,
                self.live_handle(),
                key@,
                value_bits,
            ),
    {
        plan_number_tag(EntityKind::Session, self.handle(), key, value_bits)
    }

    /// Plans attaching error information to the session.
    pub fn set_error_info(&self, error_type: &str, error_message: &str, error_stacktrace: &str) -> (r:
        Result<Plan, MarshalError>)
        ensures
            planned_view(r) == error_plan(
                EntityKind::Session,
                self.live_handle(),
                error_type@,
                error_message@,
                error_stacktrace@,
            ),
    {
        plan_error(
            EntityKind::Session,
            self.handle(),
            error_type,
            error_message,
            error_stacktrace,
        )
    }

    /// Closes the session. A live session is closed with the exit code to
    /// report, which is the failure code while the caller unwinds from a
    /// failure, and the engine is shut down after it. A session that is not
    /// live stays as it is and the close settles as a failure.
    pub fn close(&mut self, exit_code: i32, unwinding: bool, finish_time: topt_UnixTime) -> (plan:
        Plan)
        ensures
            plan@ == old(self).close_plan(exit_code, unwinding, finish_time),
            *final(self) == old(self).after_close(),
    {
        if self.session_id != INVALID_HANDLE && !self.closed {
            self.closed = true;
            Plan::CallThen(
                Call::SessionClose {
                    session_id: self.session_id,
                    exit_code: if unwinding {
                        FAILURE_EXIT_CODE
                    } else {
                        exit_code
                    },
                    finish_time,
                },
                Call::Shutdown,
            )
        } else {
            Plan::Settled(false)
        }
    }

    /// Plans the creation of a module under the session.
    pub fn create_module(
        &self,
        name: &str,
        framework_name: &str,
        framework_version: &str,
        start_time: topt_UnixTime,
    ) -> (r: Result<Plan, MarshalError>)
        ensures
            planned_view(r) == module_create_plan(
                self.live_handle(),
                name@,
                framework_name@,
                framework_version@,
                start_time,
            ),
    {
        let name = match CText::new(name) {
            Ok(text) => text,
            Err(e) => {
                return Err(e);
            },
        };
        let framework = match CText::new(framework_name) {
            Ok(text) => text,
            Err(e) => {
                return Err(e);
            },
        };
        let framework_version = match CText::new(framework_version) {
            Ok(text) => text,
            Err(e) => {
                return Err(e);
            },
        };
        let session_id = self.handle();
        Ok(
            plan_guarded(
                session_id,
                Call::ModuleCreate { session_id, name, framework, framework_version, start_time },
            ),
        )
    }

    /// The module that the engine's answer to its creation stands for.
    pub fn module_from_reply(&self, created: &Reply) -> (module: TestModule)
        ensures
            module.module_id == created.spec_handle(),
            module.session_id == self.session_id,
    {
        TestModule { session_id: self.session_id, module_id: created.handle() }
    }

    /// Plans fetching the settings of the run.
    pub fn get_settings(&self) -> (plan: Plan)
        ensures
            plan@ == self.fetch_plan(CallView::GetSettings),
    {
        if self.handle() != INVALID_HANDLE {
            Plan::Call(Call::GetSettings)
        } else {
            Plan::Settled(false)
        }
    }

    /// Plans fetching the retry budget for flaky tests.
    pub fn get_flaky_test_retries_settings(&self) -> (plan: Plan)
        ensures
            plan@ == self.fetch_plan(CallView::GetFlakyTestRetriesSettings),
    {
        if self.handle() != INVALID_HANDLE {
            Plan::Call(Call::GetFlakyTestRetriesSettings)
        } else {
            Plan::Settled(false)
        }
    }

    /// Plans fetching the known tests.
    pub fn get_known_tests(&self) -> (plan: Plan)
        ensures
            plan@ == self.fetch_plan(CallView::GetKnownTests),
    {
        if self.handle() != INVALID_HANDLE {
            Plan::Call(Call::GetKnownTests)
        } else {
            Plan::Settled(false)
        }
    }

    /// Plans fetching the skippable tests.
    pub fn get_skippable_tests(&self) -> (plan: Plan)
        ensures
            plan@ == self.fetch_plan(CallView::GetSkippableTests),
    {
        if self.handle() != INVALID_HANDLE {
            Plan::Call(Call::GetSkippableTests)
        } else {
            Plan::Settled(false)
        }
    }

    /// Plans fetching the management properties of the tests.
    pub fn get_test_management_tests(&self) -> (plan: Plan)
        ensures
            plan@ == self.fetch_plan(CallView::GetTestManagementTests),
    {
        if self.handle() != INVALID_HANDLE {
            Plan::Call(Call::GetTestManagementTests)
        } else {
            Plan::Settled(false)
        }
    }
}

/// Closing a session twice is safe: whatever the session was, after one
/// close it is no longer live, a second close settles as a failure without
/// a call, and leaves the session as the first close left it.
pub proof fn law_second_close_settles(
    session: TestSession,
    exit_code: i32,
    unwinding: bool,
    finish_time: topt_UnixTime,
)
    ensures
        !session.after_close().is_open(),
        session.after_close().close_plan(exit_code, unwinding, finish_time) == PlanView::Settled(
            false,
        ),
        session.after_close().after_close() == session.after_close(),
        session.after_close().session_id == session.session_id,
{
}

/// A live session shuts the engine down exactly once: its close plans the
/// close of the session followed by the shutdown, and no later close plans
/// any call.
pub proof fn law_shutdown_once(
    session: TestSession,
    exit_code: i32,
    unwinding: bool,
    finish_time: topt_UnixTime,
)
    requires
        session.is_open(),
    ensures
        session.close_plan(exit_code, unwinding, finish_time) matches PlanView::CallThen(
            first,
            second,
        ) && second == CallView::Shutdown && first == (CallView::SessionClose {
            session_id: session.session_id,
            exit_code: reported_exit_code(exit_code, unwinding),
            finish_time,
        }),
        session.after_close().close_plan(exit_code, unwinding, finish_time).calls() == 0,
{
}

/// While the caller unwinds from a failure, a closing session reports the
/// failure code, whatever code was given.
pub proof fn law_unwinding_reports_failure(exit_code: i32)
    ensures
        reported_exit_code(exit_code, true) == FAILURE_EXIT_CODE,
        reported_exit_code(exit_code, false) == exit_code,
{
}

} // verus!
