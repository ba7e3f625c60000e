use std::sync::atomic::{AtomicBool, AtomicUsize, Ordering};
use std::sync::Arc;
use std::time::{Duration, Instant};

use shuttle::runtime::runner::{stop_after_job, time_limit_exceeded, PortfolioStoppableScheduler};
use shuttle::runtime::task::TaskId;
use shuttle::scheduler::{CompletionMode, FuzzScheduler, RoundRobinScheduler, Schedule, Scheduler};
use shuttle::{check, Config, FailurePersistence, MaxSteps, PortfolioRunner, Runner};

#[test]
fn config_defaults() {
    let c = Config::new();
    assert_eq!(c.stack_size, 0x8000);
    assert_eq!(c.failure_persistence, FailurePersistence::Print);
    assert_eq!(c.max_steps, MaxSteps::FailAfter(1_000_000));
    assert!(c.max_time.is_none());
    assert!(!c.silence_atomic_ordering_warning);
    let d = Config::default();
    assert_eq!(d.stack_size, c.stack_size);
    assert_eq!(d.failure_persistence, c.failure_persistence);
    assert_eq!(d.max_steps, c.max_steps);
}

#[test]
fn check_runs_the_body_once() {
    let count = Arc::new(AtomicUsize::new(0));
    let c = count.clone();
    check(move || {
        c.fetch_add(1, Ordering::SeqCst);
    });
    assert_eq!(count.load(Ordering::SeqCst), 1);
}

#[test]
fn runner_counts_round_robin_iterations() {
    let count = Arc::new(AtomicUsize::new(0));
    let c = count.clone();
    let runner = Runner::new(RoundRobinScheduler::new(), Config::new());
    let n = runner.run(move || {
        c.fetch_add(1, Ordering::SeqCst);
    });
    assert_eq!(n, 1);
    assert_eq!(count.load(Ordering::SeqCst), 1);
}

#[test]
fn runner_with_fuzz_scheduler_runs_nothing() {
    let runner = Runner::new_fuzz(FuzzScheduler::new(CompletionMode::ABORT), Config::new());
    assert_eq!(runner.run(|| panic!("no execution is started")), 0);
}

/// A scheduler with an endless supply of executions.
struct Endless;

impl Scheduler for Endless {
    fn new_execution(&mut self) -> Option<Schedule> {
        Some(Schedule::new(0))
    }

    fn next_task(&mut self, runnable_tasks: &[TaskId], _: Option<TaskId>, _: bool) -> Option<TaskId> {
        runnable_tasks.first().copied()
    }

    fn next_u64(&mut self) -> u64 {
        0
    }
}

#[test]
fn runner_stops_at_the_time_limit() {
    let mut config = Config::new();
    config.max_time = Some(Duration::from_millis(30));
    let runner = Runner::new(Endless, config);
    let n = runner.run(|| {
        let start = Instant::now();
        while start.elapsed() < Duration::from_millis(5) {}
    });
    assert!(n >= 1);
    assert!(n < 100);
}

#[test]
fn fuzz_inner_runs_one_execution_and_counts_it() {
    let count = Arc::new(AtomicUsize::new(0));
    let c = count.clone();
    let mut runner = Runner::new(FuzzScheduler::new(CompletionMode::ABORT), Config::new());
    let mut i = 4;
    let mut s = Schedule::new(1);
    s.push_task(TaskId::from(0));
    runner.fuzz_inner(
        Arc::new(move || {
            c.fetch_add(1, Ordering::SeqCst);
        }),
        s,
        &mut i,
    );
    assert_eq!(i, 5);
    assert_eq!(count.load(Ordering::SeqCst), 1);
}

#[test]
fn portfolio_collects_schedulers() {
    let mut p = PortfolioRunner::new(true, Config::new());
    p.add(RoundRobinScheduler::new());
    p.add(FuzzScheduler::new(CompletionMode::ABORT));
    let (list, stop, _config) = p.into_parts();
    assert_eq!(list.0.len(), 2);
    assert!(stop);
}

#[test]
fn portfolio_stops_only_on_failure_when_asked() {
    assert!(stop_after_job(true, true));
    assert!(!stop_after_job(true, false));
    assert!(!stop_after_job(false, true));
    assert!(!stop_after_job(false, false));
}

#[test]
fn stoppable_scheduler_delegates_until_stopped() {
    let signal = Arc::new(AtomicBool::new(false));
    let mut s = PortfolioStoppableScheduler::new(RoundRobinScheduler::new(), signal.clone());
    let runnable = vec![TaskId::from(1), TaskId::from(2)];
    assert_eq!(s.next_task(&runnable, Some(TaskId::from(1)), false), Some(TaskId::from(2)));
    signal.store(true, Ordering::SeqCst);
    assert!(s.new_execution().is_none());
    assert_eq!(s.next_task(&runnable, None, false), None);
    signal.store(false, Ordering::SeqCst);
    assert!(s.new_execution().is_some());
    assert!(s.new_execution().is_none());
}

#[test]
fn stoppable_scheduler_given_the_flag() {
    let signal = Arc::new(AtomicBool::new(false));
    let mut s = PortfolioStoppableScheduler::new(RoundRobinScheduler::new(), signal);
    let runnable = vec![TaskId::from(1), TaskId::from(2)];
    assert!(s.new_execution_given(true).is_none());
    assert_eq!(s.next_task_given(true, &runnable, None, false), None);
    assert_eq!(s.next_task_given(false, &runnable, None, false), Some(TaskId::from(1)));
    assert!(s.new_execution_given(false).is_some());
    assert!(s.new_execution_given(false).is_none());
}

#[test]
fn time_limit_is_exceeded_only_past_it() {
    assert!(!time_limit_exceeded(5, None));
    assert!(!time_limit_exceeded(5, Some(5)));
    assert!(time_limit_exceeded(6, Some(5)));
    assert!(!time_limit_exceeded(4, Some(5)));
}

#[test]
fn stopped_scheduler_answers_none_even_without_runnable_tasks() {
    let signal = Arc::new(AtomicBool::new(false));
    let mut s = PortfolioStoppableScheduler::new(RoundRobinScheduler::new(), signal);
    assert_eq!(s.next_task_given(true, &[], None, false), None);
}

#[test]
fn run_iteration_skips_over_the_time_limit() {
    let count = Arc::new(AtomicUsize::new(0));
    let c = count.clone();
    let body = move || {
        c.fetch_add(1, Ordering::SeqCst);
    };
    let mut runner = Runner::new(RoundRobinScheduler::new(), Config::new());
    assert!(!runner.run_iteration(true, &body));
    assert_eq!(count.load(Ordering::SeqCst), 0);
    assert!(runner.run_iteration(false, &body));
    assert_eq!(count.load(Ordering::SeqCst), 1);
    assert!(!runner.run_iteration(false, &body));
    assert_eq!(count.load(Ordering::SeqCst), 1);
}
