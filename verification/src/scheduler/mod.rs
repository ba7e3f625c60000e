use vstd::prelude::*;

use crate::runtime::task::TaskId;
use crate::scheduler::data::{next_draw, pcg_output};

pub mod data;
pub mod fuzz;
pub mod round_robin;

pub use fuzz::{CompletionMode, FuzzScheduler, FuzzState};
pub use round_robin::RoundRobinScheduler;

verus! {

/// A `Scheduler` determines the order in which tasks are executed, and the random values that
/// an execution observes.
///
/// A scheduler is invoked once at the start of each execution, to ask for the schedule of that
/// execution, and then at every scheduling point inside it, to choose which runnable task runs
/// next.
pub trait Scheduler {
    /// How many more executions the scheduler hands out, where that number is known in
    /// advance (`None` where it is not, for instance where it depends on an outside signal).
    /// Unknown unless a scheduler says otherwise.
    open spec fn executions_left(&self) -> Option<nat> {
        None
    }

    /// An upper bound on how many more executions the scheduler hands out, where one is known: by
    /// default the number it declares it hands out.
    open spec fn execution_bound(&self) -> Option<nat> {
        self.executions_left()
    }

    /// Where the scheduler draws its random values from a `Pcg64Mcg` stream: the seed of the
    /// stream and the number of values drawn from it. Unknown unless a scheduler says otherwise.
    open spec fn random_position(&self) -> Option<(u64, u128)> {
        None
    }

    /// Whether `next_task` can make a choice among the runnable tasks `runnable`: by default,
    /// whenever some task is runnable.
    open spec fn can_choose(&self, runnable: Seq<TaskId>) -> bool {
        runnable.len() > 0
    }

    /// Whether `next_task`, asked to choose among `runnable` while `current` was running, may
    /// answer `r`. Unconstrained unless a scheduler says otherwise.
    open spec fn next_task_outcome(
        &self,
        runnable: Seq<TaskId>,
        current: Option<TaskId>,
        is_yielding: bool,
        r: Option<TaskId>,
    ) -> bool {
        true
    }

    /// Whether `next_u64` may answer `r`. Unconstrained unless a scheduler says otherwise.
    open spec fn next_u64_outcome(&self, r: u64) -> bool {
        true
    }

    /// Whether `new_execution` may answer `r`. Unconstrained unless a scheduler says otherwise.
    open spec fn new_execution_outcome(&self, r: Option<Schedule>) -> bool {
        true
    }

    /// Begin a new execution, returning its schedule, or `None` when the test should stop.
    fn new_execution(&mut self) -> (r: Option<Schedule>)
        ensures
            old(self).executions_left() matches Some(k) ==> {
                &&& (r is None <==> k == 0)
                &&& final(self).executions_left() == Some(
                    if k == 0 { 0nat } else { (k - 1) as nat },
                )
            },
            old(self).new_execution_outcome(r),
            old(self).execution_bound() matches Some(k) ==> {
                &&& final(self).execution_bound() matches Some(k2)
                &&& k2 <= k
                &&& r is Some ==> k2 < k
            },
    ;

    /// Choose the next task to run among `runnable_tasks`. `current_task` is the task that was
    /// running, and `is_yielding` tells whether it gave up the processor voluntarily. `None`
    /// ends the current execution early.
    fn next_task(
        &mut self,
        runnable_tasks: &[TaskId],
        current_task: Option<TaskId>,
        is_yielding: bool,
    ) -> (r: Option<TaskId>)
        requires
            old(self).can_choose(runnable_tasks@),
        ensures
            r matches Some(t) ==> runnable_tasks@.contains(t),
            old(self).next_task_outcome(runnable_tasks@, current_task, is_yielding, r),
            final(self).executions_left() == old(self).executions_left(),
            final(self).random_position() == old(self).random_position(),
    ;

    /// Choose a random value for the current execution: the next value of the scheduler's
    /// stream, which advances by one draw.
    fn next_u64(&mut self) -> (r: u64)
        ensures
            old(self).next_u64_outcome(r),
            final(self).executions_left() == old(self).executions_left(),
            old(self).random_position() matches Some((seed, d)) ==> {
                &&& r == pcg_output(seed, d)
                &&& final(self).random_position() == Some((seed, next_draw(d)))
            },
    ;
}

impl<S: Scheduler + ?Sized> Scheduler for Box<S> {
    open spec fn executions_left(&self) -> Option<nat> {
        (**self).executions_left()
    }

    open spec fn execution_bound(&self) -> Option<nat> {
        (**self).execution_bound()
    }

    open spec fn can_choose(&self, runnable: Seq<TaskId>) -> bool {
        (**self).can_choose(runnable)
    }

    open spec fn random_position(&self) -> Option<(u64, u128)> {
        (**self).random_position()
    }

    open spec fn next_task_outcome(
        &self,
        runnable: Seq<TaskId>,
        current: Option<TaskId>,
        is_yielding: bool,
        r: Option<TaskId>,
    ) -> bool {
        (**self).next_task_outcome(runnable, current, is_yielding, r)
    }

    open spec fn next_u64_outcome(&self, r: u64) -> bool {
        (**self).next_u64_outcome(r)
    }

    open spec fn new_execution_outcome(&self, r: Option<Schedule>) -> bool {
        (**self).new_execution_outcome(r)
    }

    fn new_execution(&mut self) -> (r: Option<Schedule>) {
        (**self).new_execution()
    }

    /// The choice of the boxed scheduler.
    fn next_task(
        &mut self,
        runnable_tasks: &[TaskId],
        current_task: Option<TaskId>,
        is_yielding: bool,
    ) -> (r: Option<TaskId>) {
        (**self).next_task(runnable_tasks, current_task, is_yielding)
    }

    /// The random value of the boxed scheduler.
    fn next_u64(&mut self) -> (r: u64) {
        (**self).next_u64()
    }
}

/// One decision recorded in a schedule.
#[derive(Clone, Copy, Debug, PartialEq, Eq, Structural)]
pub enum ScheduleStep {
    /// Run the given task next.
    Task(TaskId),
    /// Draw a random value.
    Random,
}

/// The mathematical content of a [`Schedule`].
pub struct ScheduleView {
    pub seed: u64,
    pub steps: Seq<ScheduleStep>,
}

/// A schedule: the seed of the data source of an execution and the sequence of scheduling
/// decisions taken in it.
#[derive(Debug)]
pub struct Schedule {
    pub seed: u64,
    pub steps: Vec<ScheduleStep>,
}

impl View for Schedule {
    type V = ScheduleView;

    open spec fn view(&self) -> ScheduleView {
        ScheduleView { seed: self.seed, steps: self.steps@ }
    }
}

/// The content of an optional schedule.
pub open spec fn option_schedule_view(s: Option<Schedule>) -> Option<ScheduleView> {
    match s {
        Some(s) => Some(s@),
        None => None,
    }
}

impl Schedule {
    /// Create an empty schedule whose data source is seeded with `seed`.
    pub fn new(seed: u64) -> (s: Self)
        ensures
            s@ == (ScheduleView { seed, steps: Seq::empty() }),
    {
        Schedule { seed, steps: Vec::new() }
    }

    /// Append a decision to run `task`.
    pub fn push_task(&mut self, task: TaskId)
        ensures
            final(self)@ == (ScheduleView {
                seed: old(self)@.seed,
                steps: old(self)@.steps.push(ScheduleStep::Task(task)),
            }),
    {
        self.steps.push(ScheduleStep::Task(task));
    }

    /// Append a decision to draw a random value.
    pub fn push_random(&mut self)
        ensures
            final(self)@ == (ScheduleView {
                seed: old(self)@.seed,
                steps: old(self)@.steps.push(ScheduleStep::Random),
            }),
    {
        self.steps.push(ScheduleStep::Random);
    }

    /// The number of decisions in the schedule.
    pub fn len(&self) -> (n: usize)
        ensures
            n == self@.steps.len(),
    {
        self.steps.len()
    }
}

impl Clone for Schedule {
    fn clone(&self) -> (r: Self)
        ensures
            r@ == self@,
    {
        let steps = self.steps.clone();
        proof {
            assert(steps@ =~= self.steps@);
        }
        Schedule { seed: self.seed, steps }
    }
}

} // verus!
