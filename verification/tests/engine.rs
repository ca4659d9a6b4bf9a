//! Scenario tests driving the engine's state machines with stubbed request
//! outcomes and a simulated clock, exactly as the I/O layer would.

use loadgen::aggregate::{aggregate, AggregateError, ConfigSample, Metric};
use loadgen::config::{RunConfig, StopCondition, Target};
use loadgen::fleet::Fleet;
use loadgen::sweep::{sweep, FleetOutcome, ScalingRunner};
use loadgen::worker::{RequestOutcome, Worker, WorkerMode, WorkerResult};

/// Drive one worker to its natural stop: a stub issuer that answers every
/// request with `outcome`, against a clock that advances `tick_nanos` per
/// exchange. Returns the worker and the number of attempts made.
fn drive(mut w: Worker, outcome: RequestOutcome, start_nanos: u64, tick_nanos: u64) -> (Worker, u64) {
    let mut now = start_nanos;
    let mut attempts: u64 = 0;
    while w.should_continue(now) {
        w.record(outcome);
        now += tick_nanos;
        attempts += 1;
    }
    (w, attempts)
}

#[test]
fn fleet_of_four_returns_four_results_after_full_duration() {
    // An always-succeeding instant stub: each worker still runs until its
    // own clock passes the configured duration, and the fleet hands back
    // exactly worker_count results.
    let config = RunConfig {
        worker_count: 4,
        stop: StopCondition::Duration { duration_nanos: 1_000_000_000 },
    };
    let fleet = Fleet::start(&config, 0);
    assert_eq!(fleet.workers.len(), 4);
    let mut finished = Vec::new();
    for w in fleet.workers {
        let (done, attempts) = drive(w, RequestOutcome::Success { elapsed_nanos: 0 }, 0, 100_000_000);
        // The loop kept going for the whole configured duration: ten ticks
        // of a tenth of a second each.
        assert_eq!(attempts, 10);
        assert!(!done.should_continue(1_000_000_000));
        finished.push(done);
    }
    let results = Fleet { workers: finished }.into_results();
    assert_eq!(results.len(), 4);
    for r in &results {
        assert_eq!(r.successes, 10);
    }
}

#[test]
fn count_mode_ten_requests_over_three_workers_attempts_nine() {
    // T = 10, W = 3: each worker's share is 3; exactly 9 attempts are made
    // and the remainder request is dropped, not redistributed.
    let config = RunConfig { worker_count: 3, stop: StopCondition::Count { total_requests: 10 } };
    let fleet = Fleet::start(&config, 0);
    let mut total_attempts = 0;
    for w in fleet.workers {
        let (done, attempts) = drive(w, RequestOutcome::Success { elapsed_nanos: 7 }, 0, 1);
        assert_eq!(attempts, 3);
        assert_eq!(done.mode, WorkerMode::ByCount { share: 3, attempted: 3 });
        total_attempts += attempts;
    }
    assert_eq!(total_attempts, 9);
}

#[test]
fn failures_consume_count_mode_budget_without_counting() {
    let config = RunConfig { worker_count: 2, stop: StopCondition::Count { total_requests: 8 } };
    let w = Worker::start(&config, 0);
    let (done, attempts) = drive(w, RequestOutcome::Failure, 0, 1);
    assert_eq!(attempts, 4);
    assert_eq!(done.successes, 0);
    assert_eq!(done.latency_sum_nanos, 0);
}

#[test]
fn all_failing_stub_still_stops_at_duration_boundary() {
    // A stub that fails every call never increments any counter, but the
    // worker still terminates exactly when its clock reaches the deadline.
    let config = RunConfig {
        worker_count: 1,
        stop: StopCondition::Duration { duration_nanos: 500 },
    };
    let w = Worker::start(&config, 100);
    let (done, attempts) = drive(w, RequestOutcome::Failure, 100, 50);
    assert_eq!(attempts, 10);
    assert_eq!(done.successes, 0);
    assert!(!done.should_continue(600));
    assert!(!done.should_continue(u64::MAX));
}

#[test]
fn duration_worker_continues_strictly_before_deadline() {
    let config = RunConfig {
        worker_count: 1,
        stop: StopCondition::Duration { duration_nanos: 10 },
    };
    let w = Worker::start(&config, 5);
    assert!(w.should_continue(5));
    assert!(w.should_continue(14));
    assert!(!w.should_continue(15));
    assert!(!w.should_continue(16));
}

#[test]
fn deadline_past_the_clock_range_never_stops_the_loop() {
    let config = RunConfig {
        worker_count: 1,
        stop: StopCondition::Duration { duration_nanos: u64::MAX },
    };
    let w = Worker::start(&config, 2);
    assert!(w.should_continue(u64::MAX));
}

#[test]
fn success_adds_latency_only_in_count_mode() {
    let count_config = RunConfig { worker_count: 1, stop: StopCondition::Count { total_requests: 2 } };
    let mut w = Worker::start(&count_config, 0);
    w.record(RequestOutcome::Success { elapsed_nanos: 300 });
    w.record(RequestOutcome::Success { elapsed_nanos: 100 });
    assert_eq!(w.successes, 2);
    assert_eq!(w.latency_sum_nanos, 400);

    let duration_config = RunConfig {
        worker_count: 1,
        stop: StopCondition::Duration { duration_nanos: 50 },
    };
    let mut d = Worker::start(&duration_config, 0);
    d.record(RequestOutcome::Success { elapsed_nanos: 300 });
    assert_eq!(d.successes, 1);
    assert_eq!(d.latency_sum_nanos, 0);
}

#[test]
fn aggregate_reports_zero_successes_as_error() {
    let config = RunConfig {
        worker_count: 2,
        stop: StopCondition::Duration { duration_nanos: 1_000 },
    };
    let results = vec![
        WorkerResult { successes: 0, latency_sum_nanos: 0 },
        WorkerResult { successes: 0, latency_sum_nanos: 0 },
    ];
    let r = aggregate(&config, &results, 1_000);
    assert_eq!(r, Err(AggregateError::NoSuccesses { worker_count: 2 }));
}

#[test]
fn aggregate_reports_zero_wall_time_as_error() {
    let config = RunConfig {
        worker_count: 1,
        stop: StopCondition::Duration { duration_nanos: 1_000 },
    };
    let results = vec![WorkerResult { successes: 5, latency_sum_nanos: 0 }];
    let r = aggregate(&config, &results, 0);
    assert_eq!(r, Err(AggregateError::ZeroElapsed { worker_count: 1 }));
}

#[test]
fn hundred_successes_in_ten_seconds_is_ten_requests_per_second() {
    // 100 successes over a 10.0 s wall time: throughput 10.000 requests per
    // second, i.e. 10_000 in the milli-requests-per-second fixed point.
    let config = RunConfig {
        worker_count: 2,
        stop: StopCondition::Duration { duration_nanos: 10_000_000_000 },
    };
    let results = vec![
        WorkerResult { successes: 60, latency_sum_nanos: 0 },
        WorkerResult { successes: 40, latency_sum_nanos: 0 },
    ];
    let sample = aggregate(&config, &results, 10_000_000_000).unwrap();
    assert_eq!(sample.total_successes, 100);
    assert_eq!(sample.wall_elapsed_nanos, 10_000_000_000);
    assert_eq!(sample.metric, Metric::MilliRequestsPerSecond(10_000));
}

#[test]
fn count_mode_mean_latency_is_over_successes() {
    // 3 + 1 successes with latency sums 900 + 100: mean 1000 / 4 = 250 ns.
    let config = RunConfig { worker_count: 2, stop: StopCondition::Count { total_requests: 10 } };
    let results = vec![
        WorkerResult { successes: 3, latency_sum_nanos: 900 },
        WorkerResult { successes: 1, latency_sum_nanos: 100 },
    ];
    let sample = aggregate(&config, &results, 5_000).unwrap();
    assert_eq!(sample.metric, Metric::AverageLatencyNanos(250));
}

#[test]
fn sweep_of_three_configs_keeps_their_order() {
    // Configurations [1, 2, 4], with per-run results of wildly different
    // latencies and counts: exactly three samples come back, in sweep
    // order, each tagged with its own worker count.
    let configs = vec![
        RunConfig { worker_count: 1, stop: StopCondition::Count { total_requests: 4 } },
        RunConfig { worker_count: 2, stop: StopCondition::Count { total_requests: 4 } },
        RunConfig { worker_count: 4, stop: StopCondition::Count { total_requests: 4 } },
    ];
    let runs = vec![
        FleetOutcome {
            results: vec![WorkerResult { successes: 4, latency_sum_nanos: 83_112 }],
            wall_elapsed_nanos: 90_000,
        },
        FleetOutcome {
            results: vec![
                WorkerResult { successes: 2, latency_sum_nanos: 14_004 },
                WorkerResult { successes: 1, latency_sum_nanos: 61_373 },
            ],
            wall_elapsed_nanos: 70_001,
        },
        FleetOutcome {
            results: vec![
                WorkerResult { successes: 1, latency_sum_nanos: 9_999 },
                WorkerResult { successes: 0, latency_sum_nanos: 0 },
                WorkerResult { successes: 1, latency_sum_nanos: 31_002 },
                WorkerResult { successes: 1, latency_sum_nanos: 444 },
            ],
            wall_elapsed_nanos: 55_321,
        },
    ];
    let samples = sweep(&configs, &runs).unwrap();
    assert_eq!(samples.len(), 3);
    let counts: Vec<u32> = samples.iter().map(|s| s.config.worker_count).collect();
    assert_eq!(counts, vec![1, 2, 4]);
}

#[test]
fn sweep_fails_fast_naming_the_faulty_configuration() {
    let configs = vec![
        RunConfig { worker_count: 1, stop: StopCondition::Count { total_requests: 4 } },
        RunConfig { worker_count: 3, stop: StopCondition::Count { total_requests: 6 } },
        RunConfig { worker_count: 5, stop: StopCondition::Count { total_requests: 10 } },
    ];
    let runs = vec![
        FleetOutcome {
            results: vec![WorkerResult { successes: 4, latency_sum_nanos: 100 }],
            wall_elapsed_nanos: 9_000,
        },
        // The second configuration saw no success at all.
        FleetOutcome {
            results: vec![
                WorkerResult { successes: 0, latency_sum_nanos: 0 },
                WorkerResult { successes: 0, latency_sum_nanos: 0 },
                WorkerResult { successes: 0, latency_sum_nanos: 0 },
            ],
            wall_elapsed_nanos: 9_000,
        },
        FleetOutcome {
            results: vec![
                WorkerResult { successes: 2, latency_sum_nanos: 50 },
                WorkerResult { successes: 2, latency_sum_nanos: 50 },
                WorkerResult { successes: 2, latency_sum_nanos: 50 },
                WorkerResult { successes: 2, latency_sum_nanos: 50 },
                WorkerResult { successes: 2, latency_sum_nanos: 50 },
            ],
            wall_elapsed_nanos: 9_000,
        },
    ];
    let r = sweep(&configs, &runs);
    assert_eq!(r, Err(AggregateError::NoSuccesses { worker_count: 3 }));
}

#[test]
fn runner_appends_samples_and_skips_failures() {
    let mut runner = ScalingRunner::new();
    let good = RunConfig {
        worker_count: 1,
        stop: StopCondition::Duration { duration_nanos: 1_000 },
    };
    let bad = RunConfig {
        worker_count: 1,
        stop: StopCondition::Duration { duration_nanos: 1_000 },
    };
    assert!(runner
        .record_run(&good, &vec![WorkerResult { successes: 2, latency_sum_nanos: 0 }], 1_000)
        .is_ok());
    assert!(runner
        .record_run(&bad, &vec![WorkerResult { successes: 0, latency_sum_nanos: 0 }], 1_000)
        .is_err());
    let samples: Vec<ConfigSample> = runner.into_samples();
    assert_eq!(samples.len(), 1);
    assert_eq!(samples[0].total_successes, 2);
}

#[test]
fn share_of_zero_stops_workers_before_any_attempt() {
    // More workers than budgeted requests: every share truncates to zero
    // and no attempt is ever made.
    let config = RunConfig { worker_count: 5, stop: StopCondition::Count { total_requests: 2 } };
    let fleet = Fleet::start(&config, 0);
    for w in &fleet.workers {
        assert!(!w.should_continue(0));
    }
    let results = fleet.into_results();
    assert_eq!(results.len(), 5);
    assert!(results.iter().all(|r| r.successes == 0));
}

#[test]
fn empty_payload_means_read_style_requests() {
    let read = Target::new(String::from("http://localhost:8080"), Vec::new());
    assert!(!read.is_write());
    let write = Target::new(String::from("http://localhost:8080"), vec![97, 98, 99]);
    assert!(write.is_write());
    assert_eq!(write.hostname, "http://localhost:8080");
}
