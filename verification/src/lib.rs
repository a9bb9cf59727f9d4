//! Client-side core of a test-optimization SDK.
//!
//! A test runner reports a tree of sessions, modules, suites, tests and spans
//! to a native engine and asks the engine how to adapt the run. This crate is
//! the part of that client that decides: it validates and marshals every value
//! that crosses the boundary, plans each boundary call, and turns each engine
//! answer into a value of the client. It performs no boundary call itself; a
//! thin transport makes the planned [`boundary::Call`] and hands back the
//! [`boundary::Reply`].

pub mod boundary;
pub mod directives;
pub mod entity;
pub mod grouping;
pub mod laws;
pub mod mock_tracer;
pub mod module;
pub mod session;
pub mod settings;
pub mod span;
pub mod suite;
pub mod test_case;
pub mod text;
pub mod time;
pub mod wire;
