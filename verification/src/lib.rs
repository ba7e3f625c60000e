//! Shuttle is a library for testing concurrent Rust code by controlling the scheduling of each
//! thread in a test and choosing those schedules randomly, or following schedules handed to it
//! by a fuzzer.

pub mod runtime;
pub mod scheduler;

pub use runtime::runner::{PortfolioRunner, Runner};
pub use scheduler::fuzz::CompletionMode;

use vstd::prelude::*;

use scheduler::RoundRobinScheduler;

use std::path::PathBuf;
use std::time::Duration;

verus! {

#[verifier::external_type_specification]
#[verifier::external_body]
pub struct ExPathBuf(PathBuf);

/// Configuration parameters for Shuttle
#[derive(Clone, Debug)]
#[non_exhaustive]
pub struct Config {
    /// Stack size allocated for each thread
    pub stack_size: usize,
    /// How to persist schedules when a test fails
    pub failure_persistence: FailurePersistence,
    /// Maximum number of steps a single iteration of a test can take, and how to react when the
    /// limit is reached
    pub max_steps: MaxSteps,
    /// Time limit for an entire test. If set, calls to [`Runner::run`] will return when the time
    /// limit is exceeded or the scheduler chooses to stop (e.g., by hitting its maximum number of
    /// iterations), whichever comes first. This time limit will not abort a currently running
    /// test iteration; the limit is only checked between iterations.
    pub max_time: Option<Duration>,
    /// Whether to silence warnings about the unsound implementation of atomics.
    pub silence_atomic_ordering_warning: bool,
}

/// Whether `c` holds the default configuration: 32 KiB stacks, failing schedules printed, a test
/// failed after a million steps, no time limit, and atomic-ordering warnings enabled.
pub open spec fn is_default_config(c: Config) -> bool {
    &&& c.stack_size == 0x8000
    &&& c.failure_persistence is Print
    &&& c.max_steps == MaxSteps::FailAfter(1_000_000)
    &&& c.max_time is None
    &&& !c.silence_atomic_ordering_warning
}

impl Config {
    /// Create a new default configuration
    pub fn new() -> (c: Self)
        ensures
            is_default_config(c),
    {
        Config {
            stack_size: 0x8000,
            failure_persistence: FailurePersistence::Print,
            max_steps: MaxSteps::FailAfter(1_000_000),
            max_time: None,
            silence_atomic_ordering_warning: false,
        }
    }
}

impl Default for Config {
    fn default() -> (c: Self)
        ensures
            is_default_config(c),
    {
        Self::new()
    }
}

/// Specifies how to persist schedules when a Shuttle test fails
///
/// By default, schedules are printed to stdout/stderr. Optionally, they can instead be persisted
/// to a file, which can be useful if the schedule is too large to conveniently print.
#[derive(Debug, Clone, PartialEq, Eq)]
#[non_exhaustive]
pub enum FailurePersistence {
    /// Do not persist failing schedules
    Discard,
    /// Print failing schedules to stdout/stderr
    Print,
    /// Persist schedules as files in the given directory, or the current directory if None.
    File(Option<PathBuf>),
}

/// Specifies an upper bound on the number of steps a single iteration of a Shuttle test can take,
/// and how to react when the bound is reached.
///
/// A "step" is an atomic region (all the code between two yieldpoints). Shuttle can bound the
/// maximum number of steps a single test iteration can take to prevent infinite loops. If the
/// bound is hit, the test can either fail (`FailAfter`) or continue to the next iteration
/// (`ContinueAfter`).
///
/// By default, Shuttle fails a test after 1,000,000 steps.
#[derive(Debug, Clone, Copy, PartialEq, Eq, Structural)]
#[non_exhaustive]
pub enum MaxSteps {
    /// Do not enforce any bound on the maximum number of steps
    Unbounded,
    /// Fail the test (by panicing) after the given number of steps
    FailAfter(usize),
    /// When the given number of steps is reached, stop the current iteration of the test and
    /// begin a new iteration
    ContinueAfter(usize),
}

/// Run the given function once under a round-robin concurrency scheduler.
pub fn check<F>(f: F) where F: Fn() + Send + Sync + 'static
    requires
        f.requires(()),
    ensures
        f.ensures((), ()),
{
    let runner = Runner::new(RoundRobinScheduler::new(), Config::default());
    let iterations = runner.run(f);
    // A round-robin scheduler hands out exactly one execution, and the default configuration sets
    // no time limit: the body runs exactly once.
    assert(iterations == 1);
}

} // verus!
