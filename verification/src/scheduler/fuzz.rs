use vstd::prelude::*;

use crate::runtime::task::TaskId;
use crate::scheduler::data::{next_draw, pcg_output, RandomDataSource};
use crate::scheduler::{option_schedule_view, Schedule, ScheduleStep, ScheduleView, Scheduler};

verus! {

/// What a [`FuzzScheduler`] does once every step of its schedule has been taken.
#[allow(non_camel_case_types)]
#[derive(Debug)]
pub enum CompletionMode {
    /// End the execution.
    ABORT,
    /// Run the first runnable task.
    ROUND_ROBIN,
    /// Run a runnable task chosen at random.
    RANDOM,
    /// Start over from the first step of the schedule.
    WRAPAROUND,
}

/// The state of a [`FuzzScheduler`].
pub struct FuzzState {
    /// The schedule being followed, if any.
    pub schedule: Option<ScheduleView>,
    /// Whether the last step of the schedule has been taken.
    pub complete: bool,
    /// The index of the next step of the schedule to take.
    pub steps: nat,
    /// What to do once the schedule runs out.
    pub mode: CompletionMode,
    /// The seed of the stream of random values.
    pub random_seed: u64,
    /// How many random values were drawn from that stream (wrapping).
    pub random_draws: u128,
}

/// A scheduler that follows a schedule handed to it by a fuzzer, reading each recorded task as
/// an index into the runnable tasks.
pub struct FuzzScheduler {
    schedule: Option<Schedule>,
    complete: bool,
    steps: usize,
    data_source: RandomDataSource,
    mode: CompletionMode,
}

/// The index into `n` runnable tasks that `step` selects: a recorded task is read as an index,
/// modulo `n`; a random step selects the first task.
pub open spec fn step_index(step: ScheduleStep, n: nat) -> int {
    match step {
        ScheduleStep::Random => 0,
        ScheduleStep::Task(t) => (t.0 as nat % n) as int,
    }
}

/// Whether taking `step`, the last of `len` steps, once `taken` steps have been taken in all,
/// marks the schedule complete. Only a recorded task does so.
pub open spec fn completes(step: ScheduleStep, taken: nat, len: nat) -> bool {
    step is Task && taken >= len
}

/// Taking step `at` of `s`, with `runnable` the runnable tasks, in state `st`: the task that the
/// step selects, and the state once the step is counted.
pub open spec fn take_step_spec(
    st: FuzzState,
    s: ScheduleView,
    at: nat,
    runnable: Seq<TaskId>,
) -> (Option<TaskId>, FuzzState) {
    let step = s.steps[at as int];
    (
        Some(runnable[step_index(step, runnable.len())]),
        FuzzState {
            steps: at + 1,
            complete: st.complete || completes(step, at + 1, s.steps.len()),
            ..st
        },
    )
}

/// Whether completing a schedule in state `st` among `runnable` picks a task at random: some task
/// is runnable and the completion mode is `RANDOM`.
pub open spec fn completes_at_random(st: FuzzState, runnable: Seq<TaskId>) -> bool {
    runnable.len() > 0 && st.mode is RANDOM
}

/// Completing the schedule `s` in state `st`, with `runnable` the runnable tasks, wherever that
/// is not a random pick: the task chosen and the state afterwards. With no runnable task, or
/// under `ABORT`, nothing is chosen; under `ROUND_ROBIN` the first runnable task is; under
/// `WRAPAROUND` the first step of `s` is taken afresh. Only `WRAPAROUND` changes the state.
pub open spec fn completion(st: FuzzState, s: ScheduleView, runnable: Seq<TaskId>) -> (
    Option<TaskId>,
    FuzzState,
) {
    if runnable.len() == 0 {
        (None, st)
    } else {
        match st.mode {
            CompletionMode::ABORT => (None, st),
            CompletionMode::ROUND_ROBIN => (Some(runnable[0]), st),
            CompletionMode::RANDOM => (None, st),
            CompletionMode::WRAPAROUND => take_step_spec(st, s, 0, runnable),
        }
    }
}

/// Completing a schedule, where that is no random pick and no empty schedule is to be started
/// over, answers `None` exactly under `ABORT` or when no task is runnable, otherwise answers a
/// runnable task, and changes nothing when it answers `None`.
pub proof fn completion_answers(st: FuzzState, s: ScheduleView, runnable: Seq<TaskId>)
    requires
        !completes_at_random(st, runnable),
        st.mode is WRAPAROUND && runnable.len() > 0 ==> s.steps.len() > 0,
    ensures
        completion(st, s, runnable).0 is None <==> (st.mode is ABORT || runnable.len() == 0),
        completion(st, s, runnable).0 matches Some(t) ==> runnable.contains(t),
        completion(st, s, runnable).0 is None ==> completion(st, s, runnable).1 == st,
{
    if runnable.len() > 0 {
        match st.mode {
            CompletionMode::ROUND_ROBIN => {
                assert(runnable[0] == runnable[0]);
            },
            CompletionMode::WRAPAROUND => {
                let k = step_index(s.steps[0], runnable.len());
                match s.steps[0] {
                    ScheduleStep::Task(t) => {
                        vstd::arithmetic::div_mod::lemma_mod_bound(t.0 as int, runnable.len() as int);
                    },
                    ScheduleStep::Random => {},
                }
                assert(0 <= k < runnable.len());
                assert(runnable[k] == runnable[k]);
            },
            _ => {},
        }
    }
}

/// Whether a fuzz scheduler in state `st`, asked to choose among `runnable`, chooses at random:
/// its schedule is exhausted and its completion mode is `RANDOM`.
pub open spec fn chooses_at_random(st: FuzzState, runnable: Seq<TaskId>) -> bool {
    &&& st.schedule matches Some(s)
    &&& s.steps.len() <= st.steps
    &&& completes_at_random(st, runnable)
}

/// The choice of a fuzz scheduler in state `st` among `runnable`, and its state afterwards,
/// wherever it does not choose at random.
pub open spec fn fuzz_choice(st: FuzzState, runnable: Seq<TaskId>) -> (Option<TaskId>, FuzzState) {
    match st.schedule {
        None => (None, st),
        Some(s) => if st.steps < s.steps.len() {
            take_step_spec(st, s, st.steps, runnable)
        } else {
            completion(st, s, runnable)
        },
    }
}

/// A fuzz scheduler in `WRAPAROUND` mode repeats its schedule: once every step has been taken,
/// it chooses as it did from the first step on.
pub proof fn wraparound_repeats_schedule(st: FuzzState, runnable: Seq<TaskId>)
    requires
        st.mode is WRAPAROUND,
        st.schedule matches Some(s) && 0 < s.steps.len() <= st.steps,
        runnable.len() > 0,
    ensures
        fuzz_choice(st, runnable) == fuzz_choice(FuzzState { steps: 0, ..st }, runnable),
{
}

/// A fuzz scheduler follows the recorded tasks of its schedule: where step `st.steps` of the
/// schedule records the task `t`, the scheduler runs the runnable task at index `t`, taken modulo
/// the number of runnable tasks (on the full identifier), and moves on to the next step.
pub proof fn follows_recorded_task(st: FuzzState, runnable: Seq<TaskId>, t: TaskId)
    requires
        st.schedule matches Some(s) && st.steps < s.steps.len() && s.steps[st.steps as int]
            == ScheduleStep::Task(t),
        runnable.len() > 0,
    ensures
        fuzz_choice(st, runnable).0 == Some(runnable[(t.0 as int) % (runnable.len() as int)]),
        fuzz_choice(st, runnable).1.steps == st.steps + 1,
{
}

/// A fuzz scheduler in `WRAPAROUND` mode whose schedule is used up starts it over: where the
/// schedule's first step records the task `t`, it runs the runnable task at index `t` modulo the
/// number of runnable tasks, and its next step is the second.
pub proof fn wraparound_restarts_at_first_step(st: FuzzState, runnable: Seq<TaskId>, t: TaskId)
    requires
        st.mode is WRAPAROUND,
        st.schedule matches Some(s) && 0 < s.steps.len() <= st.steps && s.steps[0]
            == ScheduleStep::Task(t),
        runnable.len() > 0,
    ensures
        fuzz_choice(st, runnable).0 == Some(runnable[(t.0 as int) % (runnable.len() as int)]),
        fuzz_choice(st, runnable).1.steps == 1,
{
}

/// `<ThreadRng as rand::Rng>::gen_range(0..runnable_tasks.len())` on `rand::thread_rng()`: a
/// random index into `runnable_tasks`, drawn from the thread-local generator. Only that it is an
/// index into the slice is claimed of it.
#[verifier::external_body]
fn random_index_into(runnable_tasks: &[TaskId]) -> (r: usize)
    requires
        runnable_tasks@.len() > 0,
    ensures
        r < runnable_tasks@.len(),
{
    rand::Rng::gen_range(&mut rand::thread_rng(), 0..runnable_tasks.len())
}

/// The task that the random draw `k` picks among `runnable_tasks`: the `k`-th.
pub fn pick_drawn(runnable_tasks: &[TaskId], k: usize) -> (r: Option<TaskId>)
    requires
        k < runnable_tasks@.len(),
    ensures
        r == Some(runnable_tasks@[k as int]),
{
    Some(runnable_tasks[k])
}

impl View for FuzzScheduler {
    type V = FuzzState;

    closed spec fn view(&self) -> FuzzState {
        FuzzState {
            schedule: option_schedule_view(self.schedule),
            complete: self.complete,
            steps: self.steps as nat,
            mode: self.mode,
            random_seed: self.data_source.seed(),
            random_draws: self.data_source.draws(),
        }
    }
}

impl FuzzScheduler {
    /// Construct a fuzz scheduler that completes exhausted schedules according to `md`. It starts
    /// with an empty schedule, marked complete.
    pub fn new(md: CompletionMode) -> (s: Self)
        ensures
            s@ == (FuzzState {
                schedule: Some(ScheduleView { seed: 0, steps: Seq::empty() }),
                complete: true,
                steps: 0,
                mode: md,
                random_seed: 0,
                random_draws: 0,
            }),
    {
        FuzzScheduler {
            schedule: Some(Schedule::new(0)),
            complete: true,
            steps: 0,
            data_source: RandomDataSource::initialize(0),
            mode: md,
        }
    }

    /// Take step `self.steps` of `schedule`, which exists.
    fn take_step(&mut self, runnable_tasks: &[TaskId], schedule: &Schedule) -> (r: Option<TaskId>)
        requires
            old(self).steps < schedule.steps@.len(),
            runnable_tasks@.len() > 0,
        ensures
            (r, final(self)@) == take_step_spec(
                old(self)@,
                schedule@,
                old(self)@.steps,
                runnable_tasks@,
            ),
    {
        let len = schedule.steps.len();
        match schedule.steps[self.steps] {
            ScheduleStep::Random => {
                self.steps = self.steps + 1;
                Some(runnable_tasks[0])
            },
            ScheduleStep::Task(next) => {
                let next: usize = next.0;
                let next = next % runnable_tasks.len();
                let next = runnable_tasks[next];
                self.steps = self.steps + 1;
                if self.steps >= schedule.steps.len() {
                    self.complete = true;
                }
                Some(next)
            },
        }
    }

    /// Choose a task once every step of a schedule has been taken, as the completion mode says;
    /// `WRAPAROUND` starts `schedule` over.
    fn complete_schedule(&mut self, runnable_tasks: &[TaskId], schedule: &Schedule) -> (r: Option<
        TaskId,
    >)
        requires
            old(self)@.mode is WRAPAROUND && runnable_tasks@.len() > 0 ==> schedule@.steps.len()
                > 0,
        ensures
            !completes_at_random(old(self)@, runnable_tasks@) ==> (r, final(self)@) == completion(
                old(self)@,
                schedule@,
                runnable_tasks@,
            ),
            completes_at_random(old(self)@, runnable_tasks@) ==> (r matches Some(t)
                && runnable_tasks@.contains(t)) && final(self)@ == old(self)@,
    {
        match &self.mode {
            CompletionMode::ABORT => None,
            CompletionMode::ROUND_ROBIN => {
                if runnable_tasks.len() > 0 {
                    Some(runnable_tasks[0])
                } else {
                    None
                }
            },
            CompletionMode::RANDOM => {
                if runnable_tasks.len() > 0 {
                    let task_num = random_index_into(runnable_tasks);
                    pick_drawn(runnable_tasks, task_num)
                } else {
                    None
                }
            },
            CompletionMode::WRAPAROUND => {
                if runnable_tasks.len() > 0 {
                    self.steps = 0;
                    self.take_step(runnable_tasks, schedule)
                } else {
                    None
                }
            },
        }
    }

    /// Install `schedule` as the schedule of the next execution and return a copy of it. The
    /// step counter is left where it stood.
    pub fn new_execution_fuzz(&mut self, schedule: Option<Schedule>) -> (r: Option<Schedule>)
        ensures
            option_schedule_view(r) == option_schedule_view(schedule),
            final(self)@ == (FuzzState {
                schedule: option_schedule_view(schedule),
                complete: false,
                ..old(self)@
            }),
    {
        self.schedule = schedule;
        self.complete = false;
        match &self.schedule {
            Some(s) => Some(s.clone()),
            None => None,
        }
    }
}

impl Scheduler for FuzzScheduler {
    open spec fn executions_left(&self) -> Option<nat> {
        Some(0nat)
    }

    open spec fn next_task_outcome(
        &self,
        runnable: Seq<TaskId>,
        current: Option<TaskId>,
        is_yielding: bool,
        r: Option<TaskId>,
    ) -> bool {
        if chooses_at_random(self@, runnable) {
            r matches Some(t) && runnable.contains(t)
        } else {
            r == fuzz_choice(self@, runnable).0
        }
    }

    open spec fn next_u64_outcome(&self, r: u64) -> bool {
        r == pcg_output(self@.random_seed, self@.random_draws)
    }

    open spec fn new_execution_outcome(&self, r: Option<Schedule>) -> bool {
        r is None
    }

    open spec fn random_position(&self) -> Option<(u64, u128)> {
        Some((self@.random_seed, self@.random_draws))
    }

    open spec fn can_choose(&self, runnable: Seq<TaskId>) -> bool {
        match self@.schedule {
            None => true,
            Some(s) => if s.steps.len() <= self@.steps {
                self@.mode is WRAPAROUND && runnable.len() > 0 ==> s.steps.len() > 0
            } else {
                runnable.len() > 0
            },
        }
    }

    /// A fuzz scheduler is handed its schedules through `new_execution_fuzz`; it never starts
    /// an execution of its own.
    fn new_execution(&mut self) -> (r: Option<Schedule>)
        ensures
            r is None,
            final(self)@ == old(self)@,
    {
        None
    }

    /// Run the task that the next step of the schedule selects. Once the schedule is exhausted,
    /// the completion mode decides.
    fn next_task(
        &mut self,
        runnable_tasks: &[TaskId],
        _current_task: Option<TaskId>,
        _is_yielding: bool,
    ) -> (r: Option<TaskId>)
        ensures
            !chooses_at_random(old(self)@, runnable_tasks@) ==> (r, final(self)@) == fuzz_choice(
                old(self)@,
                runnable_tasks@,
            ),
            chooses_at_random(old(self)@, runnable_tasks@) ==> (r matches Some(t)
                && runnable_tasks@.contains(t)) && final(self)@ == old(self)@,
            match old(self)@.schedule {
                Some(s) => old(self)@.steps < s.steps.len()
                    ==> match s.steps[old(self)@.steps as int] {
                    ScheduleStep::Task(t) => r == Some(
                        runnable_tasks@[(t.0 as int) % (runnable_tasks@.len() as int)],
                    ),
                    ScheduleStep::Random => r == Some(runnable_tasks@[0]),
                },
                None => true,
            },
            match old(self)@.schedule {
                Some(s) => (s.steps.len() <= old(self)@.steps && old(self)@.mode is WRAPAROUND
                    && runnable_tasks@.len() > 0) ==> match s.steps[0] {
                    ScheduleStep::Task(t) => r == Some(
                        runnable_tasks@[(t.0 as int) % (runnable_tasks@.len() as int)],
                    ),
                    ScheduleStep::Random => r == Some(runnable_tasks@[0]),
                },
                None => true,
            },
            match old(self)@.schedule {
                Some(s) => s.steps.len() <= old(self)@.steps && !completes_at_random(
                    old(self)@,
                    runnable_tasks@,
                ) ==> (r, final(self)@) == completion(old(self)@, s, runnable_tasks@),
                None => true,
            },
    {
        let current = match &self.schedule {
            Some(s) => Some(s.clone()),
            None => None,
        };
        match &current {
            Some(schedule) => {
                if schedule.steps.len() <= self.steps {
                    self.complete_schedule(runnable_tasks, schedule)
                } else {
                    self.take_step(runnable_tasks, schedule)
                }
            },
            None => None,
        }
    }

    /// The next value of the data source, which advances by one draw.
    fn next_u64(&mut self) -> (r: u64)
        ensures
            r == pcg_output(old(self)@.random_seed, old(self)@.random_draws),
            final(self)@ == (FuzzState {
                random_draws: next_draw(old(self)@.random_draws),
                ..old(self)@
            }),
    {
        self.data_source.next_u64()
    }
}

} // verus!
