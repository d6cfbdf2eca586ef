//! A thin proxy around a test runner that adds coverage instrumentation,
//! merges the raw profiles it produces, and renders coverage reports.
//!
//! The crate holds the decision logic of that pipeline: locating the
//! project manifest, deriving the test executable's filename prefix,
//! building every subprocess invocation, selecting the object files to
//! report on, and the stage machine that decides which step runs next
//! after each subprocess exits.

pub mod commands;
pub mod dispatch;
pub mod locate;
pub mod manifest;
pub mod paths;
pub mod pipeline;
pub mod strings;
pub mod targets;
