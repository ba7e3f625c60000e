use rand::{RngCore, SeedableRng};
use shuttle::runtime::task::TaskId;
use shuttle::scheduler::{CompletionMode, FuzzScheduler, RoundRobinScheduler, Schedule, Scheduler};

fn ids(v: &[usize]) -> Vec<TaskId> {
    v.iter().map(|&i| TaskId::from(i)).collect()
}

#[test]
fn round_robin_hands_out_one_execution() {
    let mut s = RoundRobinScheduler::new();
    let first = s.new_execution();
    assert!(first.is_some());
    assert_eq!(first.unwrap().len(), 0);
    assert!(s.new_execution().is_none());
    assert!(s.new_execution().is_none());
}

#[test]
fn round_robin_default_hands_out_one_execution() {
    let mut s = RoundRobinScheduler::default();
    assert!(s.new_execution().is_some());
    assert!(s.new_execution().is_none());
}

#[test]
fn round_robin_picks_first_when_nothing_runs() {
    let mut s = RoundRobinScheduler::new();
    let runnable = ids(&[4, 2, 9]);
    assert_eq!(s.next_task(&runnable, None, false), Some(TaskId::from(4)));
}

#[test]
fn round_robin_picks_next_higher_identifier() {
    let mut s = RoundRobinScheduler::new();
    let runnable = ids(&[1, 3, 5]);
    assert_eq!(s.next_task(&runnable, Some(TaskId::from(1)), false), Some(TaskId::from(3)));
    assert_eq!(s.next_task(&runnable, Some(TaskId::from(3)), true), Some(TaskId::from(5)));
    assert_eq!(s.next_task(&runnable, Some(TaskId::from(2)), false), Some(TaskId::from(3)));
    assert_eq!(s.next_task(&runnable, Some(TaskId::from(0)), false), Some(TaskId::from(1)));
}

#[test]
fn round_robin_wraps_after_last() {
    let mut s = RoundRobinScheduler::new();
    let runnable = ids(&[1, 3, 5]);
    assert_eq!(s.next_task(&runnable, Some(TaskId::from(5)), false), Some(TaskId::from(1)));
    assert_eq!(s.next_task(&runnable, Some(TaskId::from(9)), false), Some(TaskId::from(1)));
}

#[test]
fn round_robin_takes_turns_over_sorted_tasks() {
    let mut s = RoundRobinScheduler::new();
    let runnable = ids(&[0, 1, 2, 3]);
    let mut current = None;
    let mut seen = Vec::new();
    for _ in 0..8 {
        let t = s.next_task(&runnable, current, false).unwrap();
        seen.push(usize::from(t));
        current = Some(t);
    }
    assert_eq!(seen, vec![0, 1, 2, 3, 0, 1, 2, 3]);
}

#[test]
fn round_robin_random_values_follow_the_seed() {
    let mut a = RoundRobinScheduler::new();
    let mut b = RoundRobinScheduler::new();
    let xs: Vec<u64> = (0..4).map(|_| a.next_u64()).collect();
    let ys: Vec<u64> = (0..4).map(|_| b.next_u64()).collect();
    assert_eq!(xs, ys);
    assert_ne!(xs[0], xs[1]);
}

fn schedule_of(tasks: &[usize]) -> Schedule {
    let mut s = Schedule::new(7);
    for &t in tasks {
        s.push_task(TaskId::from(t));
    }
    s
}

#[test]
fn fuzz_scheduler_never_starts_an_execution() {
    let mut s = FuzzScheduler::new(CompletionMode::ABORT);
    assert!(s.new_execution().is_none());
    assert!(s.new_execution().is_none());
}

#[test]
fn fuzz_scheduler_starts_with_an_empty_schedule() {
    let mut s = FuzzScheduler::new(CompletionMode::ROUND_ROBIN);
    let runnable = ids(&[5, 6]);
    assert_eq!(s.next_task(&runnable, None, false), Some(TaskId::from(5)));
}

#[test]
fn fuzz_scheduler_returns_the_installed_schedule() {
    let mut s = FuzzScheduler::new(CompletionMode::ABORT);
    let installed = s.new_execution_fuzz(Some(schedule_of(&[3, 1]))).unwrap();
    assert_eq!(installed.seed, 7);
    assert_eq!(installed.len(), 2);
    assert!(s.new_execution_fuzz(None).is_none());
}

#[test]
fn fuzz_scheduler_reads_steps_as_indices() {
    let mut s = FuzzScheduler::new(CompletionMode::ABORT);
    let mut schedule = schedule_of(&[7, 2]);
    schedule.push_random();
    s.new_execution_fuzz(Some(schedule));
    let runnable = ids(&[10, 11, 12]);
    assert_eq!(s.next_task(&runnable, None, false), Some(TaskId::from(11)));
    assert_eq!(s.next_task(&runnable, None, false), Some(TaskId::from(12)));
    assert_eq!(s.next_task(&runnable, None, false), Some(TaskId::from(10)));
    assert_eq!(s.next_task(&runnable, None, false), None);
}

#[test]
fn fuzz_scheduler_abort_ends_without_runnable_tasks() {
    let mut s = FuzzScheduler::new(CompletionMode::ABORT);
    assert_eq!(s.next_task(&[], None, false), None);
}

#[test]
fn fuzz_scheduler_without_schedule_chooses_nothing() {
    let mut s = FuzzScheduler::new(CompletionMode::ROUND_ROBIN);
    s.new_execution_fuzz(None);
    assert_eq!(s.next_task(&ids(&[1, 2]), None, false), None);
}

#[test]
fn fuzz_scheduler_round_robin_completion() {
    let mut s = FuzzScheduler::new(CompletionMode::ROUND_ROBIN);
    s.new_execution_fuzz(Some(schedule_of(&[1])));
    let runnable = ids(&[4, 8]);
    assert_eq!(s.next_task(&runnable, None, false), Some(TaskId::from(8)));
    assert_eq!(s.next_task(&runnable, None, false), Some(TaskId::from(4)));
    assert_eq!(s.next_task(&runnable, None, false), Some(TaskId::from(4)));
    assert_eq!(s.next_task(&[], None, false), None);
}

#[test]
fn fuzz_scheduler_random_completion_picks_a_runnable_task() {
    let mut s = FuzzScheduler::new(CompletionMode::RANDOM);
    let runnable = ids(&[20, 21, 22]);
    for _ in 0..50 {
        let t = s.next_task(&runnable, None, false).unwrap();
        assert!(runnable.contains(&t));
    }
    assert_eq!(s.next_task(&[], None, false), None);
}

#[test]
fn fuzz_scheduler_wraparound_repeats_the_schedule() {
    let mut s = FuzzScheduler::new(CompletionMode::WRAPAROUND);
    s.new_execution_fuzz(Some(schedule_of(&[0, 2, 1])));
    let runnable = ids(&[30, 31, 32]);
    let picks: Vec<usize> =
        (0..7).map(|_| usize::from(s.next_task(&runnable, None, false).unwrap())).collect();
    assert_eq!(picks, vec![30, 32, 31, 30, 32, 31, 30]);
}

#[test]
fn fuzz_scheduler_keeps_its_position_across_schedules() {
    let mut s = FuzzScheduler::new(CompletionMode::ABORT);
    s.new_execution_fuzz(Some(schedule_of(&[0, 0])));
    let runnable = ids(&[1, 2]);
    assert_eq!(s.next_task(&runnable, None, false), Some(TaskId::from(1)));
    s.new_execution_fuzz(Some(schedule_of(&[0, 1])));
    assert_eq!(s.next_task(&runnable, None, false), Some(TaskId::from(2)));
    assert_eq!(s.next_task(&runnable, None, false), None);
}

#[test]
fn schedule_records_steps_and_clones() {
    let mut s = Schedule::new(42);
    assert_eq!(s.len(), 0);
    s.push_task(TaskId::from(3));
    s.push_random();
    assert_eq!(s.len(), 2);
    let c = s.clone();
    assert_eq!(c.seed, 42);
    assert_eq!(c.steps, s.steps);
}

#[test]
fn task_id_round_trips_through_usize() {
    assert_eq!(usize::from(TaskId::from(17)), 17);
    assert!(TaskId::from(2) < TaskId::from(3));
}

#[test]
fn random_values_follow_the_pcg_stream_of_the_seed() {
    let mut rng = rand_pcg::Pcg64Mcg::seed_from_u64(0);
    let mut s = RoundRobinScheduler::new();
    for _ in 0..5 {
        assert_eq!(s.next_u64(), rng.next_u64());
    }
}

#[test]
fn schedulers_seeded_alike_draw_alike() {
    let mut a = RoundRobinScheduler::new();
    let mut b = FuzzScheduler::new(CompletionMode::ABORT);
    for _ in 0..3 {
        assert_eq!(a.next_u64(), b.next_u64());
    }
}

#[test]
fn round_robin_execution_records_the_fresh_seed() {
    let mut s = RoundRobinScheduler::new();
    let schedule = s.new_execution().unwrap();
    let mut rng = rand_pcg::Pcg64Mcg::seed_from_u64(0);
    let seed = rng.next_u64();
    assert_eq!(schedule.seed, seed);
    let mut reseeded = rand_pcg::Pcg64Mcg::seed_from_u64(seed);
    assert_eq!(s.next_u64(), reseeded.next_u64());
}

#[test]
fn a_drawn_index_picks_that_task() {
    let runnable = ids(&[7, 8, 9]);
    assert_eq!(shuttle::scheduler::fuzz::pick_drawn(&runnable, 2), Some(TaskId::from(9)));
    assert_eq!(shuttle::scheduler::fuzz::pick_drawn(&runnable, 0), Some(TaskId::from(7)));
}
