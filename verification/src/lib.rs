//! Adaptive logging pipeline: a size-bounded rotating log writer and a
//! frequency-based verbosity governor, together with the pure logic of the
//! surrounding developer tooling (merge-safety scoring, debug-statement
//! removal, documentation validation, worktree status reporting).

pub mod ci;
pub mod config;
pub mod monitor;
pub mod remove_debug;
pub mod rotating_file_logger;
pub mod text;
pub mod tracing_subscriber;
pub mod validate_docs;

use vstd::prelude::*;

verus! {

/// A log severity, ordered by decreasing urgency: ERROR is the most urgent,
/// TRACE the least.
#[derive(Clone, Copy, Debug, PartialEq, Eq, Structural)]
pub enum Level {
    Error,
    Warn,
    Info,
    Debug,
    Trace,
}

impl Level {
    /// Rank of a level in the urgency order: 0 for ERROR up to 4 for TRACE.
    /// A smaller rank means a more urgent level.
    pub open spec fn spec_rank(self) -> int {
        match self {
            Level::Error => 0,
            Level::Warn => 1,
            Level::Info => 2,
            Level::Debug => 3,
            Level::Trace => 4,
        }
    }

    /// Executable form of the urgency rank.
    pub fn rank(self) -> (r: u8)
        ensures
            r as int == self.spec_rank(),
    {
        match self {
            Level::Error => 0,
            Level::Warn => 1,
            Level::Info => 2,
            Level::Debug => 3,
            Level::Trace => 4,
        }
    }
}

} // verus!
