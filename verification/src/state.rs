//! The write-once-at-startup context shared by every dispatched operation.

use vstd::prelude::*;
use crate::gate::Gate;

verus! {

/// Requested log verbosity of the sandboxed program.
#[derive(Clone, Copy)]
pub enum LogLevel {
    Error,
    Warn,
    Info,
    Debug,
    Trace,
}

/// Context the embedding builds once at startup and then only reads.
/// Host identity that the dispatch layer itself may not observe directly
/// (working directory, process id, executable path) is captured here as
/// plain values by the embedding.
pub struct SandboxState {
    /// Command-line arguments given to the sandboxed program.
    pub argv: Vec<String>,
    /// Main-module identifier, if one was set at startup.
    pub main_module: Option<String>,
    /// Configured log verbosity, if any.
    pub log_level: Option<LogLevel>,
    /// Whether a version query was requested.
    pub version_flag: bool,
    /// Optional delimiter setting.
    pub xeval_delim: Option<String>,
    /// Resolved current working directory, as the host normalized it.
    pub cwd: String,
    /// Process id of the host process.
    pub pid: u32,
    /// The path the host reports for its own executable; `None` when the
    /// host could not resolve it.
    pub exe_path: Option<String>,
    /// Embedded runtime version string.
    pub runtime_version: String,
    /// Embedded engine version string.
    pub engine_version: String,
    /// True when colored output should be suppressed.
    pub no_color: bool,
    /// The capability policy queried before gated operations.
    pub gate: Gate,
}

/// The debug flag of a start-info response: the configured verbosity is
/// exactly the most verbose `Debug` level.
pub open spec fn debug_flag(s: SandboxState) -> bool {
    s.log_level == Some(LogLevel::Debug)
}

} // verus!
