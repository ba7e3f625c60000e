# shuttle

A library for testing concurrent Rust code by controlling the scheduling of the threads of a
test, written in Verus.

- `src/scheduler/`: the `Scheduler` trait, schedules, the round-robin scheduler and the fuzz
  scheduler (which follows schedules produced by a fuzzer). The contracts of the two schedulers
  fix each of their scheduling decisions (a random pick among the runnable tasks once a fuzzed
  schedule is used up excepted) and the random values they draw; proofs show that round-robin
  scheduling takes turns and visits every runnable task once per round, and that a fuzz
  scheduler in wrap-around mode repeats its schedule.
- `src/scheduler/data.rs`: the source of random values, a `Pcg64Mcg` stream from `rand_pcg`,
  given by its seed and the number of values drawn; the values of the stream are value-stable
  for a given seed, which is what makes an execution reproducible from its seed.
- `src/runtime/`: task identifiers, the `Runner` that runs a test once per execution its
  scheduler hands out, the `PortfolioRunner` that collects several schedulers, and the wrapper
  that stops a portfolio's scheduler once a shared flag is set. Of that wrapper only its
  behaviour for each value of the flag is fixed, as the flag is set by other threads.
- `src/lib.rs`: the configuration and the `check` entry point.
- `app/`: the drivers that need a fuzzer (AFL) or threads: `check_fuzz`, `run_fuzz` and
  `run_portfolio`.

The engine that runs the threads of one execution and consults the scheduler at each
scheduling point is not part of this crate: a runner invokes the test body once per execution.
Neither are the random, PCT, depth-first and replay schedulers, so the entry points built on
them (`check_random`, `check_pct`, `check_dfs`, `replay`, `replay_from_file`) are not provided.
