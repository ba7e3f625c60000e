use vstd::prelude::*;

use crate::runtime::task::TaskId;
use crate::scheduler::{FuzzScheduler, FuzzState, Schedule, Scheduler};
use crate::Config;

use std::sync::atomic::{AtomicBool, Ordering};
use std::sync::Arc;
use std::time::{Duration, Instant};

verus! {

#[verifier::external_type_specification]
#[verifier::external_body]
pub struct ExInstant(Instant);

/// `Instant::now`: the current time. Nothing is claimed of it.
#[verifier::external_body]
fn instant_now() -> Instant {
    Instant::now()
}

/// `Instant::elapsed`: the time passed since `start`. Nothing is claimed of it.
#[verifier::external_body]
fn instant_elapsed(start: &Instant) -> Duration {
    start.elapsed()
}

/// `Duration::as_nanos`: the length of `d` in nanoseconds. Durations carry no model here, so
/// nothing is claimed of the answer.
#[verifier::external_body]
fn duration_as_nanos(d: &Duration) -> u128 {
    d.as_nanos()
}

/// Whether a test that has run for `elapsed_nanos` nanoseconds is over its time limit of
/// `max_time_nanos` nanoseconds, if it has one: exactly when it has one and has run longer.
pub fn time_limit_exceeded(elapsed_nanos: u128, max_time_nanos: Option<u128>) -> (over: bool)
    ensures
        over == (max_time_nanos matches Some(limit) && elapsed_nanos > limit),
{
    match max_time_nanos {
        Some(limit) => elapsed_nanos > limit,
        None => false,
    }
}

/// A `Runner` is the entry-point for testing concurrent code.
///
/// It takes as input a function to test and a `Scheduler` to run it under. It then executes that
/// function as many times as dictated by the scheduler; each execution has its scheduling decisions
/// resolved by the scheduler, which can make different choices for each execution.
#[derive(Debug)]
pub struct Runner<S: Scheduler> {
    scheduler: S,
    config: Config,
}

impl<S: Scheduler> Runner<S> {
    /// The scheduler that controls the test.
    pub closed spec fn scheduler(&self) -> S {
        self.scheduler
    }

    /// The configuration of the test.
    pub closed spec fn config(&self) -> Config {
        self.config
    }

    /// Construct a new `Runner` that will use the given `Scheduler` to control the test.
    pub fn new(scheduler: S, config: Config) -> (r: Self)
        ensures
            r.scheduler() == scheduler,
            r.config() == config,
    {
        Runner { scheduler, config }
    }

    /// Construct a new `Runner` for a scheduler driven by a fuzzer.
    pub fn new_fuzz(scheduler: S, config: Config) -> (r: Self)
        ensures
            r.scheduler() == scheduler,
            r.config() == config,
    {
        Runner { scheduler, config }
    }

    /// Test the given function and return the number of times the function was invoked during the
    /// test (i.e., the number of iterations run).
    ///
    /// Each iteration asks the scheduler for a new execution and invokes `f` once; the test ends
    /// when the scheduler has no execution left, when the time limit of the configuration has
    /// passed, or when the count of iterations reaches `usize::MAX`.
    pub fn run<F>(self, f: F) -> (n: usize) where F: Fn() + Send + Sync + 'static
        requires
            f.requires(()),
        ensures
            self.scheduler().executions_left() matches Some(k) ==> n <= k,
            self.scheduler().execution_bound() matches Some(k) ==> n <= k,
            self.config().max_time is None ==> (self.scheduler().executions_left() matches Some(k)
                ==> n == (if k <= usize::MAX { k } else { usize::MAX as nat })),
            n > 0 ==> f.ensures((), ()),
    {
        let mut runner = self;
        let start = instant_now();
        let max_time_nanos = match &runner.config.max_time {
            Some(t) => Some(duration_as_nanos(t)),
            None => None,
        };
        let (n, Ghost(_elapsed_readings)) = runner.run_timed(&f, &start, max_time_nanos);
        n
    }

    /// Run iterations of the test until the scheduler has no execution left, the time limit of
    /// `max_time_nanos` nanoseconds is found passed, or `usize::MAX` iterations have run. Returns
    /// the number of iterations, and the times elapsed since `start` as read before each check of
    /// the limit.
    ///
    /// Every iteration began within the limit, and where the scheduler had executions left that
    /// were not handed out, the run ended because the last time read was past the limit.
    fn run_timed<F>(&mut self, f: &F, start: &Instant, max_time_nanos: Option<u128>) -> (r: (
        usize,
        Ghost<Seq<u128>>,
    )) where F: Fn()
        requires
            f.requires(()),
        ensures
            final(self).config() == old(self).config(),
            r.0 <= r.1@.len(),
            forall|j: int|
                0 <= j < r.0 ==> !(max_time_nanos matches Some(limit) && #[trigger] r.1@[j]
                    > limit),
            old(self).scheduler().executions_left() matches Some(k) ==> {
                &&& r.0 <= k
                &&& (r.0 < k && r.0 < usize::MAX) ==> (r.0 < r.1@.len() && (
                max_time_nanos matches Some(limit) && r.1@[r.0 as int] > limit))
            },
            old(self).scheduler().execution_bound() matches Some(k) ==> r.0 <= k,
            r.0 > 0 ==> f.ensures((), ()),
    {
        let ghost left = self.scheduler().executions_left();
        let ghost bound = self.scheduler().execution_bound();
        let ghost config0 = self.config();
        let ghost mut readings: Seq<u128> = Seq::empty();
        let mut i: usize = 0;
        let mut done = false;
        while !done && i < usize::MAX
            invariant
                f.requires(()),
                self.config() == config0,
                readings.len() == i + (if done { 1int } else { 0int }),
                forall|j: int|
                    0 <= j < i ==> !(max_time_nanos matches Some(limit) && #[trigger] readings[j]
                        > limit),
                left matches Some(k) ==> i <= k && self.scheduler().executions_left() == Some(
                    (k - i) as nat,
                ),
                bound matches Some(k) ==> (self.scheduler().execution_bound() matches Some(k2)
                    && i + k2 <= k),
                done ==> ((left matches Some(k) ==> i == k) || (max_time_nanos matches Some(limit)
                    && readings[i as int] > limit)),
                i > 0 ==> f.ensures((), ()),
            decreases usize::MAX - i, if done { 0int } else { 1int },
        {
            let elapsed = instant_elapsed(start);
            let elapsed_nanos = duration_as_nanos(&elapsed);
            proof {
                readings = readings.push(elapsed_nanos);
            }
            let over = time_limit_exceeded(elapsed_nanos, max_time_nanos);
            if self.run_iteration(over, f) {
                i = i + 1;
            } else {
                done = true;
            }
        }
        (i, Ghost(readings))
    }

    /// One iteration of a test, the time limit having just been found exceeded or not
    /// (`over_time_limit`): when it was, nothing is done; otherwise the scheduler is asked for a
    /// new execution and, when it hands one out, `f` runs once under it. Returns whether an
    /// execution ran.
    pub fn run_iteration<F>(&mut self, over_time_limit: bool, f: &F) -> (ran: bool) where F: Fn()
        requires
            f.requires(()),
        ensures
            final(self).config() == old(self).config(),
            over_time_limit ==> !ran && final(self).scheduler() == old(self).scheduler(),
            ran ==> f.ensures((), ()),
            !over_time_limit ==> (old(self).scheduler().executions_left() matches Some(k) ==> {
                &&& (ran <==> k > 0)
                &&& final(self).scheduler().executions_left() == Some(one_fewer(k))
            }),
            !over_time_limit ==> (old(self).scheduler().execution_bound() matches Some(k) ==> {
                &&& final(self).scheduler().execution_bound() matches Some(k2)
                &&& k2 <= k
                &&& ran ==> k2 < k
            }),
    {
        if over_time_limit {
            return false;
        }
        match self.scheduler.new_execution() {
            None => false,
            Some(_schedule) => {
                f();
                true
            },
        }
    }
}

impl Runner<FuzzScheduler> {
    /// Run one execution of `f` under the schedule `s` that a fuzzer produced, and count it in
    /// `i`. The schedule is installed in the fuzz scheduler, which then decides every scheduling
    /// point of the execution by it.
    pub fn fuzz_inner<F>(&mut self, f: Arc<F>, s: Schedule, i: &mut usize) where
        F: Fn() + Send + Sync + 'static,

        requires
            (*f).requires(()),
            *old(i) < usize::MAX,
        ensures
            *final(i) == *old(i) + 1,
            (*f).ensures((), ()),
            final(self).config() == old(self).config(),
            final(self).scheduler()@ == (FuzzState {
                schedule: Some(s@),
                complete: false,
                ..old(self).scheduler()@
            }),
    {
        let schedule = self.scheduler.new_execution_fuzz(Some(s));
        if let Some(_schedule) = schedule {
            (*f)();
            *i = *i + 1;
        }
    }
}

/// The schedulers of a portfolio, each boxed so that schedulers of different types can be held
/// together, and each movable to the thread that runs it.
#[verifier::external_body]
#[derive(Default)]
pub struct SchedulerList(pub Vec<Box<dyn Scheduler + Send + 'static>>);

/// The schedulers that `list` holds, in the order they were added, each given by the number of
/// executions it declared it would hand out (`Scheduler::executions_left`) when it was added.
pub uninterp spec fn scheduler_list_models(list: SchedulerList) -> Seq<Option<nat>>;

/// `Vec::new`: an empty list.
#[verifier::external_body]
fn scheduler_list_new() -> (list: SchedulerList)
    ensures
        scheduler_list_models(list) == Seq::<Option<nat>>::empty(),
{
    SchedulerList::default()
}

/// `Vec::push` of the boxed `scheduler`: the list holds the schedulers it held, then `scheduler`.
#[verifier::external_body]
fn scheduler_list_push<S: Scheduler + Send + 'static>(list: &mut SchedulerList, scheduler: S)
    ensures
        scheduler_list_models(*final(list)) == scheduler_list_models(*old(list)).push(
            scheduler.executions_left(),
        ),
{
    list.0.push(Box::new(scheduler))
}

/// A `PortfolioRunner` is the same as a `Runner`, except that it can run multiple different
/// schedulers (a "portfolio" of schedulers) in parallel. If any of the schedulers finds a failing
/// execution of the test, the entire run fails.
pub struct PortfolioRunner {
    schedulers: SchedulerList,
    stop_on_first_failure: bool,
    config: Config,
}

impl PortfolioRunner {
    /// The schedulers in the portfolio, in the order they were added, each given by the number
    /// of executions it declared when it was added.
    pub closed spec fn schedulers(&self) -> Seq<Option<nat>> {
        scheduler_list_models(self.schedulers)
    }

    /// Whether all schedulers stop as soon as one of them fails.
    pub closed spec fn stops_on_first_failure(&self) -> bool {
        self.stop_on_first_failure
    }

    /// The configuration that each scheduler runs the test with.
    pub closed spec fn config(&self) -> Config {
        self.config
    }

    /// Construct a new `PortfolioRunner` with no schedulers. If `stop_on_first_failure` is true,
    /// all schedulers will be terminated as soon as any fails; if false, they will keep running
    /// and potentially find multiple bugs.
    pub fn new(stop_on_first_failure: bool, config: Config) -> (r: Self)
        ensures
            r.schedulers() == Seq::<Option<nat>>::empty(),
            r.stops_on_first_failure() == stop_on_first_failure,
            r.config() == config,
    {
        PortfolioRunner { schedulers: scheduler_list_new(), stop_on_first_failure, config }
    }

    /// Add the given scheduler to the portfolio of schedulers to run the test with.
    pub fn add(&mut self, scheduler: impl Scheduler + Send + 'static)
        ensures
            final(self).schedulers() == old(self).schedulers().push(scheduler.executions_left()),
            final(self).stops_on_first_failure() == old(self).stops_on_first_failure(),
            final(self).config() == old(self).config(),
    {
        scheduler_list_push(&mut self.schedulers, scheduler);
    }

    /// Take the portfolio apart, into its schedulers, whether it stops on the first failure, and
    /// its configuration, so that each scheduler can be run on a thread of its own.
    pub fn into_parts(self) -> (r: (SchedulerList, bool, Config))
        ensures
            scheduler_list_models(r.0) == self.schedulers(),
            r.1 == self.stops_on_first_failure(),
            r.2 == self.config(),
    {
        (self.schedulers, self.stop_on_first_failure, self.config)
    }
}

/// Whether, once a job of a portfolio has ended (failed or not), every other job is told to stop:
/// exactly when the job failed and the portfolio stops on the first failure.
pub fn stop_after_job(stop_on_first_failure: bool, job_failed: bool) -> (stop: bool)
    ensures
        stop == (job_failed && stop_on_first_failure),
{
    job_failed && stop_on_first_failure
}

/// The number of executions left after one more was handed out, where `k` were left before.
pub open spec fn one_fewer(k: nat) -> nat {
    if k == 0 {
        0
    } else {
        (k - 1) as nat
    }
}

/// What the trait `Scheduler` promises of `new_execution`, run on a scheduler `before` that it
/// leaves as `after`, returning `r`.
pub open spec fn hands_out_execution<S: Scheduler>(before: S, after: S, r: Option<Schedule>) -> bool {
    before.executions_left() matches Some(k) ==> {
        &&& (r is None <==> k == 0)
        &&& after.executions_left() == Some(one_fewer(k))
    }
}

/// What the trait `Scheduler` promises of the bound on executions through `new_execution`, run
/// on a scheduler `before` that it leaves as `after`, returning `r`: the bound does not grow, and
/// handing out an execution lowers it.
pub open spec fn keeps_execution_bound<S: Scheduler>(before: S, after: S, r: Option<Schedule>) -> bool {
    before.execution_bound() matches Some(k) ==> {
        &&& after.execution_bound() matches Some(k2)
        &&& k2 <= k
        &&& r is Some ==> k2 < k
    }
}

/// A wrapper around a `Scheduler` that can be told to stop early by setting a flag. A portfolio
/// uses it to abort all of its jobs as soon as any job fails.
pub struct PortfolioStoppableScheduler<S> {
    scheduler: S,
    stop_signal: Arc<AtomicBool>,
    saw_stop: Ghost<bool>,
}

impl<S: Scheduler> PortfolioStoppableScheduler<S> {
    /// The wrapped scheduler.
    pub closed spec fn inner(&self) -> S {
        self.scheduler
    }

    /// The flag that stops the scheduler once set.
    pub closed spec fn signal(&self) -> Arc<AtomicBool> {
        self.stop_signal
    }

    /// Whether the last look at the stop signal found it set.
    pub closed spec fn saw_stop(&self) -> bool {
        self.saw_stop@
    }

    /// Wrap `scheduler`, to be stopped once `stop_signal` is set.
    pub fn new(scheduler: S, stop_signal: Arc<AtomicBool>) -> (r: Self)
        ensures
            r.inner() == scheduler,
            r.signal() == stop_signal,
            !r.saw_stop(),
    {
        PortfolioStoppableScheduler { scheduler, stop_signal, saw_stop: Ghost(false) }
    }

    /// Look at the stop signal; it is shared with other threads, so nothing is known of what is
    /// found, which is recorded as the last look.
    fn stop_requested(&mut self) -> (stopped: bool)
        ensures
            final(self).saw_stop() == stopped,
            final(self).inner() == old(self).inner(),
            final(self).signal() == old(self).signal(),
    {
        let stopped = self.stop_signal.load(Ordering::SeqCst);
        self.saw_stop = Ghost(stopped);
        stopped
    }

    /// `new_execution`, where the stop signal read `stopped`: `None`, leaving the wrapped
    /// scheduler alone, when it was set; otherwise the next execution of the wrapped scheduler.
    pub fn new_execution_given(&mut self, stopped: bool) -> (r: Option<Schedule>)
        ensures
            final(self).signal() == old(self).signal(),
            final(self).saw_stop() == old(self).saw_stop(),
            stopped ==> r is None && final(self).inner() == old(self).inner(),
            !stopped ==> hands_out_execution(old(self).inner(), final(self).inner(), r)
                && old(self).inner().new_execution_outcome(r)
                && keeps_execution_bound(old(self).inner(), final(self).inner(), r),
    {
        if stopped {
            None
        } else {
            self.scheduler.new_execution()
        }
    }

    /// `next_task`, where the stop signal read `stopped`: `None`, leaving the wrapped scheduler
    /// alone, when it was set; otherwise the choice of the wrapped scheduler, whatever
    /// `is_yielding` is.
    pub fn next_task_given(
        &mut self,
        stopped: bool,
        runnable_tasks: &[TaskId],
        current_task: Option<TaskId>,
        is_yielding: bool,
    ) -> (r: Option<TaskId>)
        requires
            !stopped ==> old(self).inner().can_choose(runnable_tasks@),
        ensures
            final(self).signal() == old(self).signal(),
            final(self).saw_stop() == old(self).saw_stop(),
            stopped ==> r is None && final(self).inner() == old(self).inner(),
            !stopped ==> (r matches Some(t) ==> runnable_tasks@.contains(t))
                && old(self).inner().next_task_outcome(runnable_tasks@, current_task, is_yielding, r)
                && final(self).inner().executions_left() == old(self).inner().executions_left()
                && final(self).inner().random_position() == old(self).inner().random_position(),
    {
        if stopped {
            None
        } else {
            self.scheduler.next_task(runnable_tasks, current_task, is_yielding)
        }
    }
}

impl<S: Scheduler> Scheduler for PortfolioStoppableScheduler<S> {
    open spec fn executions_left(&self) -> Option<nat> {
        None
    }

    open spec fn execution_bound(&self) -> Option<nat> {
        self.inner().execution_bound()
    }

    open spec fn random_position(&self) -> Option<(u64, u128)> {
        self.inner().random_position()
    }

    open spec fn can_choose(&self, runnable: Seq<TaskId>) -> bool {
        self.inner().can_choose(runnable)
    }

    open spec fn next_task_outcome(
        &self,
        runnable: Seq<TaskId>,
        current: Option<TaskId>,
        is_yielding: bool,
        r: Option<TaskId>,
    ) -> bool {
        r is None || self.inner().next_task_outcome(runnable, current, is_yielding, r)
    }

    open spec fn next_u64_outcome(&self, r: u64) -> bool {
        self.inner().next_u64_outcome(r)
    }

    open spec fn new_execution_outcome(&self, r: Option<Schedule>) -> bool {
        r is None || self.inner().new_execution_outcome(r)
    }

    /// The next execution of the wrapped scheduler, unless the look at the stop signal finds it
    /// set: then `None`, leaving the wrapped scheduler alone.
    fn new_execution(&mut self) -> (r: Option<Schedule>)
        ensures
            final(self).signal() == old(self).signal(),
            final(self).saw_stop() ==> r is None && final(self).inner() == old(self).inner(),
            !final(self).saw_stop() ==> hands_out_execution(
                old(self).inner(),
                final(self).inner(),
                r,
            ) && old(self).inner().new_execution_outcome(r),
    {
        let stopped = self.stop_requested();
        self.new_execution_given(stopped)
    }

    /// The choice of the wrapped scheduler for the same arguments, unless the look at the stop
    /// signal finds it set: then `None`, leaving the wrapped scheduler alone.
    fn next_task(
        &mut self,
        runnable_tasks: &[TaskId],
        current_task: Option<TaskId>,
        is_yielding: bool,
    ) -> (r: Option<TaskId>)
        ensures
            final(self).signal() == old(self).signal(),
            final(self).saw_stop() ==> r is None && final(self).inner() == old(self).inner(),
            !final(self).saw_stop() ==> old(self).inner().next_task_outcome(
                runnable_tasks@,
                current_task,
                is_yielding,
                r,
            ) && final(self).inner().executions_left() == old(self).inner().executions_left(),
    {
        let stopped = self.stop_requested();
        self.next_task_given(stopped, runnable_tasks, current_task, is_yielding)
    }

    /// The next random value of the wrapped scheduler, whether or not the stop signal is set;
    /// the wrapped scheduler's stream advances by one draw.
    fn next_u64(&mut self) -> (r: u64)
        ensures
            final(self).signal() == old(self).signal(),
            final(self).saw_stop() == old(self).saw_stop(),
            final(self).inner().executions_left() == old(self).inner().executions_left(),
    {
        self.scheduler.next_u64()
    }
}

} // verus!
