use vstd::prelude::*;

use crate::runtime::task::TaskId;
use crate::scheduler::data::{next_draw, pcg_output, RandomDataSource};
use crate::scheduler::{Schedule, ScheduleView, Scheduler};

verus! {

/// Whether `t` is the task that round-robin scheduling runs after `current`: the first task of
/// `runnable` whose identifier is above that of `current`, or else the first task of `runnable`
/// (also when no task was running).
pub open spec fn is_round_robin_choice(
    runnable: Seq<TaskId>,
    current: Option<TaskId>,
    t: TaskId,
) -> bool {
    match current {
        None => t == runnable[0],
        Some(c) => if exists|i: int| 0 <= i < runnable.len() && #[trigger] runnable[i].0 > c.0 {
            exists|i: int|
                0 <= i < runnable.len() && #[trigger] runnable[i] == t && t.0 > c.0 && (forall|j: int|
                    0 <= j < i ==> runnable[j].0 <= c.0)
        } else {
            t == runnable[0]
        },
    }
}

/// Whether the identifiers of `runnable` are strictly increasing, as the runtime lists them.
pub open spec fn ids_increasing(runnable: Seq<TaskId>) -> bool {
    forall|a: int, b: int| 0 <= a < b < runnable.len() ==> runnable[a].0 < runnable[b].0
}

/// Round-robin scheduling takes turns: when the runnable tasks are listed by increasing
/// identifier and the running task is the `i`-th of them, the task that runs next is the one
/// after it, or the first one after the last.
pub proof fn round_robin_takes_turns(runnable: Seq<TaskId>, i: int, t: TaskId)
    requires
        ids_increasing(runnable),
        0 <= i < runnable.len(),
        is_round_robin_choice(runnable, Some(runnable[i]), t),
    ensures
        t == runnable[(i + 1) % (runnable.len() as int)],
{
    let c = runnable[i];
    if i + 1 < runnable.len() {
        assert(runnable[i + 1].0 > c.0);
        let j = choose|j: int|
            0 <= j < runnable.len() && #[trigger] runnable[j] == t && t.0 > c.0 && (forall|k: int|
                0 <= k < j ==> runnable[k].0 <= c.0);
        if j < i + 1 {
            if j < i {
                assert(runnable[j].0 < runnable[i].0);
            }
        } else if j > i + 1 {
            assert(runnable[i + 1].0 <= c.0);
        }
        assert(j == i + 1);
        vstd::arithmetic::div_mod::lemma_small_mod((i + 1) as nat, runnable.len());
    } else {
        assert forall|k: int| 0 <= k < runnable.len() implies !(#[trigger] runnable[k].0 > c.0) by {
            if k < i {
                assert(runnable[k].0 < runnable[i].0);
            }
        }
        assert((i + 1) % (runnable.len() as int) == 0) by (nonlinear_arith)
            requires
                i + 1 == runnable.len(),
                runnable.len() > 0,
        ;
    }
}

/// The round-robin choice after `runnable[i]`, when the identifiers increase: the next task, or
/// the first after the last.
proof fn round_robin_choice_exists(runnable: Seq<TaskId>, i: int)
    requires
        ids_increasing(runnable),
        0 <= i < runnable.len(),
    ensures
        is_round_robin_choice(runnable, Some(runnable[i]), runnable[(i + 1) % (runnable.len() as int)]),
{
    let c = runnable[i];
    if i + 1 < runnable.len() {
        vstd::arithmetic::div_mod::lemma_small_mod((i + 1) as nat, runnable.len());
        let j = i + 1;
        assert(runnable[j].0 > c.0);
        assert forall|k: int| 0 <= k < j implies runnable[k].0 <= c.0 by {
            if k < i {
                assert(runnable[k].0 < runnable[i].0);
            }
        }
    } else {
        assert forall|k: int| 0 <= k < runnable.len() implies !(#[trigger] runnable[k].0 > c.0) by {
            if k < i {
                assert(runnable[k].0 < runnable[i].0);
            }
        }
        assert((i + 1) % (runnable.len() as int) == 0) by (nonlinear_arith)
            requires
                i + 1 == runnable.len(),
                runnable.len() > 0,
        ;
    }
}

/// The task that round-robin scheduling runs `k` context switches after `start`.
pub open spec fn round_robin_walk(runnable: Seq<TaskId>, start: TaskId, k: nat) -> TaskId
    decreases k,
{
    if k == 0 {
        start
    } else {
        let prev = round_robin_walk(runnable, start, (k - 1) as nat);
        choose|t: TaskId| is_round_robin_choice(runnable, Some(prev), t)
    }
}

/// Round-robin scheduling visits the runnable tasks in order: when they are listed by increasing
/// identifier, `k` context switches after the `i`-th task the `(i + k)`-th task runs, counting
/// around the list.
pub proof fn round_robin_visits_in_order(runnable: Seq<TaskId>, i: int, k: nat)
    requires
        ids_increasing(runnable),
        0 <= i < runnable.len(),
    ensures
        round_robin_walk(runnable, runnable[i], k) == runnable[(i + k) % (runnable.len() as int)],
    decreases k,
{
    let n = runnable.len() as int;
    if k == 0 {
        vstd::arithmetic::div_mod::lemma_small_mod(i as nat, n as nat);
    } else {
        round_robin_visits_in_order(runnable, i, (k - 1) as nat);
        let j = (i + k - 1) % n;
        vstd::arithmetic::div_mod::lemma_mod_bound(i + k - 1, n);
        let prev = round_robin_walk(runnable, runnable[i], (k - 1) as nat);
        assert(prev == runnable[j]);
        round_robin_choice_exists(runnable, j);
        let t = choose|t: TaskId| is_round_robin_choice(runnable, Some(prev), t);
        round_robin_takes_turns(runnable, j, t);
        vstd::arithmetic::div_mod::lemma_add_mod_noop(i + k - 1, 1, n);
        if n == 1 {
            assert((j + 1) % n == 0 && (i + k) % n == 0) by (nonlinear_arith)
                requires
                    n == 1,
            ;
        } else {
            vstd::arithmetic::div_mod::lemma_small_mod(1, n as nat);
            vstd::arithmetic::div_mod::lemma_mod_bound(j + 1, n);
        }
    }
}

/// Within as many context switches as there are runnable tasks, round-robin scheduling runs
/// each of them once: no task comes back before all the others have run.
pub proof fn round_robin_no_repeat(runnable: Seq<TaskId>, i: int, a: nat, b: nat)
    requires
        ids_increasing(runnable),
        0 <= i < runnable.len(),
        a < b < runnable.len(),
    ensures
        round_robin_walk(runnable, runnable[i], a) != round_robin_walk(runnable, runnable[i], b),
{
    let n = runnable.len() as int;
    round_robin_visits_in_order(runnable, i, a);
    round_robin_visits_in_order(runnable, i, b);
    let x = (i + a) % n;
    let y = (i + b) % n;
    vstd::arithmetic::div_mod::lemma_mod_bound(i + a, n);
    vstd::arithmetic::div_mod::lemma_mod_bound(i + b, n);
    vstd::arithmetic::div_mod::lemma_fundamental_div_mod(i + a, n);
    vstd::arithmetic::div_mod::lemma_fundamental_div_mod(i + b, n);
    if x == y {
        let qa = (i + a) / n;
        let qb = (i + b) / n;
        assert(false) by (nonlinear_arith)
            requires
                i + a == n * qa + x,
                i + b == n * qb + y,
                x == y,
                0 <= a < b < n,
        ;
    }
    if x < y {
        assert(runnable[x].0 < runnable[y].0);
    } else {
        assert(runnable[y].0 < runnable[x].0);
    }
}

/// The round-robin choice is unique: at most one task is the one to run after `current`.
pub proof fn round_robin_choice_unique(
    runnable: Seq<TaskId>,
    current: Option<TaskId>,
    t1: TaskId,
    t2: TaskId,
)
    requires
        is_round_robin_choice(runnable, current, t1),
        is_round_robin_choice(runnable, current, t2),
    ensures
        t1 == t2,
{
    if let Some(c) = current {
        if exists|i: int| 0 <= i < runnable.len() && #[trigger] runnable[i].0 > c.0 {
            let i1 = choose|i: int|
                0 <= i < runnable.len() && #[trigger] runnable[i] == t1 && t1.0 > c.0 && (forall|
                    j: int,
                | 0 <= j < i ==> runnable[j].0 <= c.0);
            let i2 = choose|i: int|
                0 <= i < runnable.len() && #[trigger] runnable[i] == t2 && t2.0 > c.0 && (forall|
                    j: int,
                | 0 <= j < i ==> runnable[j].0 <= c.0);
            if i1 < i2 {
                assert(runnable[i1].0 <= c.0);
            } else if i2 < i1 {
                assert(runnable[i2].0 <= c.0);
            }
        }
    }
}

/// A sequence of round-robin choices follows the round-robin walk: when the runnable tasks are
/// listed by increasing identifier and `choices` starts at the `i`-th of them, each choice being
/// the round-robin choice after the one before, the `j`-th choice is the `(i + j)`-th task,
/// counting around the list.
pub proof fn round_robin_choices_follow_walk(runnable: Seq<TaskId>, i: int, choices: Seq<TaskId>)
    requires
        ids_increasing(runnable),
        0 <= i < runnable.len(),
        choices.len() > 0,
        choices[0] == runnable[i],
        forall|j: int|
            0 <= j < choices.len() - 1 ==> is_round_robin_choice(
                runnable,
                Some(#[trigger] choices[j]),
                choices[j + 1],
            ),
    ensures
        forall|j: int|
            0 <= j < choices.len() ==> #[trigger] choices[j] == runnable[(i + j) % (
            runnable.len() as int)],
    decreases choices.len(),
{
    let n = choices.len() as int;
    if n == 1 {
        vstd::arithmetic::div_mod::lemma_small_mod(i as nat, runnable.len());
    } else {
        let prefix = choices.drop_last();
        assert forall|j: int| 0 <= j < prefix.len() - 1 implies is_round_robin_choice(
            runnable,
            Some(#[trigger] prefix[j]),
            prefix[j + 1],
        ) by {
            assert(prefix[j] == choices[j] && prefix[j + 1] == choices[j + 1]);
        }
        round_robin_choices_follow_walk(runnable, i, prefix);
        assert forall|j: int| 0 <= j < n implies #[trigger] choices[j] == runnable[(i + j) % (
        runnable.len() as int)] by {
            if j < n - 1 {
                assert(choices[j] == prefix[j]);
            } else {
                assert(choices[j - 1] == prefix[j - 1]);
                round_robin_visits_in_order(runnable, i, (j - 1) as nat);
                round_robin_visits_in_order(runnable, i, j as nat);
                let prev = round_robin_walk(runnable, runnable[i], (j - 1) as nat);
                assert(prev == choices[j - 1]);
                round_robin_choice_exists(runnable, (i + j - 1) % (runnable.len() as int));
                let t = choose|t: TaskId| is_round_robin_choice(runnable, Some(prev), t);
                assert(is_round_robin_choice(runnable, Some(choices[j - 1]), choices[j]));
                round_robin_choice_unique(runnable, Some(prev), t, choices[j]);
            }
        }
    }
}

/// Every round of round-robin choices runs each runnable task once: when the runnable tasks are
/// listed by increasing identifier, a sequence of as many successive round-robin choices as there
/// are runnable tasks, starting at a runnable task, holds no task twice.
pub proof fn round_robin_round_visits_each_once(
    runnable: Seq<TaskId>,
    i: int,
    choices: Seq<TaskId>,
)
    requires
        ids_increasing(runnable),
        0 <= i < runnable.len(),
        choices.len() == runnable.len(),
        choices[0] == runnable[i],
        forall|j: int|
            0 <= j < choices.len() - 1 ==> is_round_robin_choice(
                runnable,
                Some(#[trigger] choices[j]),
                choices[j + 1],
            ),
    ensures
        forall|a: int, b: int| 0 <= a < b < choices.len() ==> choices[a] != choices[b],
{
    round_robin_choices_follow_walk(runnable, i, choices);
    assert forall|a: int, b: int| 0 <= a < b < choices.len() implies choices[a] != choices[b] by {
        round_robin_visits_in_order(runnable, i, a as nat);
        round_robin_visits_in_order(runnable, i, b as nat);
        round_robin_no_repeat(runnable, i, a as nat, b as nat);
        assert(choices[a] == runnable[(i + a) % (runnable.len() as int)]);
        assert(choices[b] == runnable[(i + b) % (runnable.len() as int)]);
    }
}

/// Successive calls of round-robin scheduling run every runnable task once per round: when the
/// runnable tasks are listed by increasing identifier, whatever task `current` ran before, the
/// next as many choices as there are runnable tasks, each the round-robin choice after the one
/// before, hold no task twice.
pub proof fn round_robin_calls_visit_each_once(
    runnable: Seq<TaskId>,
    current: Option<TaskId>,
    choices: Seq<TaskId>,
)
    requires
        ids_increasing(runnable),
        runnable.len() > 0,
        choices.len() == runnable.len(),
        is_round_robin_choice(runnable, current, choices[0]),
        forall|j: int|
            0 <= j < choices.len() - 1 ==> is_round_robin_choice(
                runnable,
                Some(#[trigger] choices[j]),
                choices[j + 1],
            ),
    ensures
        forall|a: int, b: int| 0 <= a < b < choices.len() ==> choices[a] != choices[b],
{
    let i: int = match current {
        None => 0,
        Some(c) => if exists|i: int| 0 <= i < runnable.len() && #[trigger] runnable[i].0 > c.0 {
            choose|i: int|
                0 <= i < runnable.len() && #[trigger] runnable[i] == choices[0] && choices[0].0
                    > c.0 && (forall|j: int| 0 <= j < i ==> runnable[j].0 <= c.0)
        } else {
            0
        },
    };
    assert(0 <= i < runnable.len() && runnable[i] == choices[0]);
    round_robin_round_visits_each_once(runnable, i, choices);
}

/// A round robin scheduler that chooses the next available runnable task at each context switch.
#[derive(Debug)]
pub struct RoundRobinScheduler {
    iterations: usize,
    data_source: RandomDataSource,
}

impl RoundRobinScheduler {
    /// A round-robin scheduler has one execution left or none.
    pub proof fn at_most_one_execution(&self)
        ensures
            self.executions_left() == Some(1nat) || self.executions_left() == Some(0nat),
    {
    }

    /// The seed that the data source was last seeded with.
    pub closed spec fn random_seed(&self) -> u64 {
        self.data_source.seed()
    }

    /// How many random values were drawn since the data source was last seeded (wrapping).
    pub closed spec fn random_draws(&self) -> u128 {
        self.data_source.draws()
    }

    /// Construct a new `RoundRobinScheduler` that will execute the test only once, scheduling its
    /// tasks in a round-robin fashion.
    pub fn new() -> (s: Self)
        ensures
            s.executions_left() == Some(1nat),
            s.random_seed() == 0,
            s.random_draws() == 0,
    {
        RoundRobinScheduler { iterations: 0, data_source: RandomDataSource::initialize(0) }
    }
}

impl Scheduler for RoundRobinScheduler {
    closed spec fn executions_left(&self) -> Option<nat> {
        if self.iterations == 0 {
            Some(1nat)
        } else {
            Some(0nat)
        }
    }

    open spec fn can_choose(&self, runnable: Seq<TaskId>) -> bool {
        runnable.len() > 0
    }

    open spec fn random_position(&self) -> Option<(u64, u128)> {
        Some((self.random_seed(), self.random_draws()))
    }

    open spec fn next_task_outcome(
        &self,
        runnable: Seq<TaskId>,
        current: Option<TaskId>,
        is_yielding: bool,
        r: Option<TaskId>,
    ) -> bool {
        r matches Some(t) && is_round_robin_choice(runnable, current, t)
    }

    open spec fn next_u64_outcome(&self, r: u64) -> bool {
        r == pcg_output(self.random_seed(), self.random_draws())
    }

    open spec fn new_execution_outcome(&self, r: Option<Schedule>) -> bool {
        match r {
            Some(s) => {
                &&& self.executions_left() == Some(1nat)
                &&& s@ == (ScheduleView {
                    seed: pcg_output(self.random_seed(), self.random_draws()),
                    steps: Seq::empty(),
                })
            },
            None => self.executions_left() == Some(0nat),
        }
    }

    /// The single execution, whose schedule records a fresh seed drawn from the data source,
    /// which is reseeded with it; afterwards `None`, leaving the scheduler as it is.
    fn new_execution(&mut self) -> (r: Option<Schedule>)
        ensures
            r matches Some(s) ==> {
                &&& s@ == (ScheduleView { seed: final(self).random_seed(), steps: Seq::empty() })
                &&& final(self).random_seed() == pcg_output(
                    old(self).random_seed(),
                    old(self).random_draws(),
                )
                &&& final(self).random_draws() == 0
            },
            r is None ==> *final(self) == *old(self),
    {
        if self.iterations == 0 {
            self.iterations = self.iterations + 1;
            Some(Schedule::new(self.data_source.reinitialize()))
        } else {
            None
        }
    }

    fn next_task(
        &mut self,
        runnable: &[TaskId],
        current: Option<TaskId>,
        _is_yielding: bool,
    ) -> (r: Option<TaskId>)
        ensures
            r matches Some(t) && is_round_robin_choice(runnable@, current, t),
            *final(self) == *old(self),
    {
        let c = match current {
            None => {
                return Some(runnable[0]);
            },
            Some(c) => c,
        };
        let mut i: usize = 0;
        while i < runnable.len()
            invariant
                0 <= i <= runnable@.len(),
                runnable@.len() > 0,
                current == Some(c),
                forall|j: int| 0 <= j < i ==> runnable@[j].0 <= c.0,
            decreases runnable@.len() - i,
        {
            if runnable[i].0 > c.0 {
                let t = runnable[i];
                proof {
                    let k = i as int;
                    assert(runnable@[k].0 > c.0);
                    assert(0 <= k < runnable@.len() && runnable@[k] == t && t.0 > c.0 && (
                    forall|j: int| 0 <= j < k ==> runnable@[j].0 <= c.0));
                }
                return Some(t);
            }
            i = i + 1;
        }
        Some(runnable[0])
    }

    /// The next value of the data source, which advances by one draw.
    fn next_u64(&mut self) -> (r: u64)
        ensures
            r == pcg_output(old(self).random_seed(), old(self).random_draws()),
            final(self).executions_left() == old(self).executions_left(),
            final(self).random_seed() == old(self).random_seed(),
            final(self).random_draws() == next_draw(old(self).random_draws()),
    {
        self.data_source.next_u64()
    }
}

impl Default for RoundRobinScheduler {
    fn default() -> (s: Self)
        ensures
            s.executions_left() == Some(1nat),
            s.random_seed() == 0,
            s.random_draws() == 0,
    {
        Self::new()
    }
}

} // verus!
