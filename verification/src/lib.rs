//! Build orchestration helper: resolves a program directory, declares
//! rerun triggers to the host build system, and models the subprocess
//! build execution — skip decision, state machine, and line relay —
//! so that every decision the helper makes is verified.

pub mod errors;
pub mod executor;
pub mod messages;
pub mod paths;
pub mod relay;
pub mod rerun;
pub mod text;
