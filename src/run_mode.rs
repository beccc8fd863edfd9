//! The mode the service runs in, and what it decides about logging.
use vstd::prelude::*;

verus! {

/// The name the service reports itself under in structured logs.
pub const SERVICE_NAME: &'static str = "rust-axum-postgres";

/// The deployment the service runs in.
#[derive(Debug, Clone, Copy, PartialEq, Eq, Structural)]
pub enum RunMode {
    Dev,
    Prod,
    Test,
}

/// The least severe level of log events that are kept.
#[derive(Debug, Clone, Copy, PartialEq, Eq, Structural)]
pub enum LogLevel {
    Info,
    Warn,
}

/// A mode's name, as written in the environment.
pub open spec fn mode_name(m: RunMode) -> Seq<char> {
    match m {
        RunMode::Dev => "Dev"@,
        RunMode::Prod => "Prod"@,
        RunMode::Test => "Test"@,
    }
}

impl RunMode {
    /// The mode's name, as written in the environment.
    pub fn name(&self) -> (r: &'static str)
        ensures
            r@ == mode_name(*self),
    {
        match self {
            RunMode::Dev => "Dev",
            RunMode::Prod => "Prod",
            RunMode::Test => "Test",
        }
    }

    /// The mode with exactly this name, if any.
    pub fn from_name(s: &str) -> (r: Option<RunMode>)
        ensures
            r matches Some(m) ==> mode_name(m) == s@,
            r is None ==> forall|m: RunMode| mode_name(m) != s@,
    {
        let owned = s.to_owned();
        if owned == "Dev".to_owned() {
            Some(RunMode::Dev)
        } else if owned == "Prod".to_owned() {
            Some(RunMode::Prod)
        } else if owned == "Test".to_owned() {
            Some(RunMode::Test)
        } else {
            None
        }
    }

    /// The level that logging keeps when the environment sets no filter:
    /// informational in development and test, warnings in production.
    pub fn default_log_level(&self) -> (r: LogLevel)
        ensures
            *self == RunMode::Prod ==> r == LogLevel::Warn,
            *self != RunMode::Prod ==> r == LogLevel::Info,
    {
        match self {
            RunMode::Prod => LogLevel::Warn,
            _ => LogLevel::Info,
        }
    }

    /// Whether log events are written in the logstash format (production)
    /// rather than as plain text.
    pub fn uses_logstash(&self) -> (r: bool)
        ensures
            r == (*self == RunMode::Prod),
    {
        match self {
            RunMode::Prod => true,
            _ => false,
        }
    }
}

} // verus!
