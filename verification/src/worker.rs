//! One worker's drive loop, as a state machine over plain values.
//!
//! A worker repeatedly has one request issued on its behalf and records the
//! outcome until its stopping condition is met: in duration-mode, until its
//! own wall clock passes `start + duration`; in count-mode, after attempting
//! exactly its share of the total request budget. The caller owns the clock
//! and the network: it asks `should_continue`, performs one exchange, and
//! feeds the `RequestOutcome` back through `record`. Workers never share
//! mutable state; each owns its counters exclusively, and the final state is
//! turned into a `WorkerResult` exactly once by `finish`.

use vstd::prelude::*;

use crate::config::{RunConfig, StopCondition};

verus! {

/// The outcome of one request/response exchange, reported by the caller
/// that performs the network I/O: success together with the exchange's
/// elapsed wall time, or failure (transport error, timeout, or a response
/// the caller chose to reject). A failure is never fatal to the run; it is
/// simply not counted.
#[derive(Clone, Copy, PartialEq, Eq, Structural, Debug)]
pub enum RequestOutcome {
    Success { elapsed_nanos: u64 },
    Failure,
}

impl RequestOutcome {
    /// What one outcome contributes to a worker's latency sum: its elapsed
    /// time if it succeeded, nothing otherwise.
    pub open spec fn latency_gain(self) -> int {
        match self {
            RequestOutcome::Success { elapsed_nanos } => elapsed_nanos as int,
            RequestOutcome::Failure => 0,
        }
    }

    /// What one outcome contributes to a worker's success count.
    pub open spec fn success_gain(self) -> int {
        if self is Success {
            1
        } else {
            0
        }
    }
}

/// What one worker carries out of its loop: how many of its requests
/// succeeded and, in count-mode, the sum of the successful requests'
/// elapsed times. Created by exactly one worker, consumed exactly once by
/// the fleet.
#[derive(Clone, Copy, PartialEq, Eq, Structural, Debug)]
pub struct WorkerResult {
    pub successes: u32,
    pub latency_sum_nanos: u128,
}

impl WorkerResult {
    /// The latency sum accumulates at most one `u64` elapsed time per
    /// successful request.
    pub open spec fn wf(self) -> bool {
        self.latency_sum_nanos as int <= (self.successes as int) * (u64::MAX as int)
    }
}

/// The stopping discipline a worker runs under, together with the progress
/// it has made towards stopping. Exactly one discipline is active per run.
#[derive(Clone, Copy, PartialEq, Eq, Structural, Debug)]
pub enum WorkerMode {
    /// Duration-mode: the worker records its own start timestamp and stops
    /// once its clock reads `start_nanos + duration_nanos` or later.
    ByDuration { start_nanos: u64, duration_nanos: u64 },
    /// Count-mode: the worker stops after `share` attempts, where `share`
    /// is its portion of the run's total budget; success and failure both
    /// consume one attempt.
    ByCount { share: u32, attempted: u32 },
}

/// One request-issuing worker. All fields are plain counters, owned by this
/// worker alone for the whole drive loop.
#[derive(Clone, Copy, PartialEq, Eq, Structural, Debug)]
pub struct Worker {
    pub mode: WorkerMode,
    pub successes: u32,
    pub latency_sum_nanos: u128,
}

impl Worker {
    /// Internal consistency: count-mode never attempts past its share and
    /// never counts more successes than attempts; the latency sum is only
    /// accumulated in count-mode, one `u64` elapsed time per success.
    pub open spec fn wf(self) -> bool {
        match self.mode {
            WorkerMode::ByDuration { .. } => self.latency_sum_nanos == 0,
            WorkerMode::ByCount { share, attempted } => {
                &&& attempted <= share
                &&& self.successes <= attempted
                &&& self.latency_sum_nanos as int <= (self.successes as int) * (u64::MAX as int)
            },
        }
    }

    /// The loop condition: a duration-mode worker keeps going strictly
    /// before its deadline; a count-mode worker keeps going while budget
    /// remains. Nothing else — in particular no success count — has any
    /// bearing on when a worker stops.
    pub open spec fn continues_at(self, now_nanos: u64) -> bool {
        match self.mode {
            WorkerMode::ByDuration { start_nanos, duration_nanos } => (now_nanos as int) < start_nanos
                + duration_nanos,
            WorkerMode::ByCount { share, attempted } => attempted < share,
        }
    }

    /// Count-mode attempts consumed so far (zero in duration-mode, which
    /// has no budget).
    pub open spec fn attempted_count(self) -> int {
        match self.mode {
            WorkerMode::ByDuration { .. } => 0,
            WorkerMode::ByCount { attempted, .. } => attempted as int,
        }
    }

    /// The state a worker starts in for a configuration: zero counters, and
    /// either the deadline `start_nanos + duration` or the share
    /// `total_requests / worker_count` (truncated — remainder requests are
    /// dropped, not redistributed).
    pub open spec fn initial(config: RunConfig, start_nanos: u64) -> Worker {
        Worker {
            mode: match config.stop {
                StopCondition::Duration { duration_nanos } => WorkerMode::ByDuration {
                    start_nanos,
                    duration_nanos,
                },
                StopCondition::Count { .. } => WorkerMode::ByCount {
                    share: config.worker_share(),
                    attempted: 0,
                },
            },
            successes: 0,
            latency_sum_nanos: 0,
        }
    }

    /// Enter the drive loop for one configuration. In duration-mode the
    /// caller passes the worker's own start timestamp; in count-mode the
    /// worker computes its share of the budget.
    pub fn start(config: &RunConfig, start_nanos: u64) -> (w: Worker)
        requires
            config.wf(),
        ensures
            w == Worker::initial(*config, start_nanos),
            w.wf(),
    {
        let mode = match config.stop {
            StopCondition::Duration { duration_nanos } => WorkerMode::ByDuration {
                start_nanos,
                duration_nanos,
            },
            StopCondition::Count { total_requests } => WorkerMode::ByCount {
                share: total_requests / config.worker_count,
                attempted: 0,
            },
        };
        Worker { mode, successes: 0, latency_sum_nanos: 0 }
    }

    /// The loop condition, evaluated against the caller's clock. Count-mode
    /// ignores the clock; duration-mode ignores the counters.
    pub fn should_continue(&self, now_nanos: u64) -> (r: bool)
        ensures
            r == self.continues_at(now_nanos),
    {
        match self.mode {
            WorkerMode::ByDuration { start_nanos, duration_nanos } => {
                if duration_nanos <= u64::MAX - start_nanos {
                    now_nanos < start_nanos + duration_nanos
                } else {
                    true
                }
            },
            WorkerMode::ByCount { share, attempted } => attempted < share,
        }
    }

    /// Record the outcome of one exchange. A success increments the local
    /// success counter and, in count-mode, adds its elapsed time to the
    /// latency sum; a failure changes no counter other than (in count-mode)
    /// the consumed budget. The stopping condition itself is never moved:
    /// duration-mode keeps its deadline exactly, count-mode consumes one
    /// attempt for success and failure alike.
    pub fn record(&mut self, outcome: RequestOutcome)
        requires
            old(self).wf(),
            old(self).mode matches WorkerMode::ByCount { share, attempted } ==> attempted < share,
            old(self).mode is ByDuration && outcome is Success ==> old(self).successes < u32::MAX,
        ensures
            final(self).wf(),
            final(self).successes as int == old(self).successes + outcome.success_gain(),
            old(self).mode is ByDuration ==> final(self).mode == old(self).mode
                && final(self).latency_sum_nanos == 0,
            old(self).mode matches WorkerMode::ByCount { share, attempted } ==> final(self).mode
                == (WorkerMode::ByCount { share, attempted: (attempted + 1) as u32 })
                && final(self).latency_sum_nanos as int == old(self).latency_sum_nanos
                + outcome.latency_gain(),
    {
        match self.mode {
            WorkerMode::ByDuration { .. } => {
                if let RequestOutcome::Success { .. } = outcome {
                    self.successes = self.successes + 1;
                }
            },
            WorkerMode::ByCount { share, attempted } => {
                proof {
                    assert((self.successes as int) * (u64::MAX as int) <= (u32::MAX as int) * (
                    u64::MAX as int)) by (nonlinear_arith)
                        requires
                            0 <= self.successes as int <= u32::MAX as int,
                    ;
                    assert((self.successes as int) * (u64::MAX as int) + (u64::MAX as int) == (
                    self.successes as int + 1) * (u64::MAX as int)) by (nonlinear_arith);
                }
                self.mode = WorkerMode::ByCount { share, attempted: attempted + 1 };
                if let RequestOutcome::Success { elapsed_nanos } = outcome {
                    self.successes = self.successes + 1;
                    self.latency_sum_nanos = self.latency_sum_nanos + elapsed_nanos as u128;
                }
            },
        }
    }

    /// Terminal transition: the worker has reached `Stopped` and yields its
    /// result, carrying its counters over unchanged.
    pub fn finish(self) -> (r: WorkerResult)
        ensures
            r.successes == self.successes,
            r.latency_sum_nanos == self.latency_sum_nanos,
            self.wf() ==> r.wf(),
    {
        proof {
            assert(0 <= (self.successes as int) * (u64::MAX as int)) by (nonlinear_arith)
                requires
                    0 <= self.successes as int,
            ;
        }
        WorkerResult { successes: self.successes, latency_sum_nanos: self.latency_sum_nanos }
    }
}

/// Law: a duration-mode worker never stops before its deadline. Together
/// with `lemma_duration_worker_stops_at_deadline` this pins the drive loop's
/// span to exactly the configured duration, up to the caller's clock
/// granularity.
pub proof fn lemma_duration_worker_runs_until_deadline(w: Worker, now_nanos: u64)
    requires
        w.mode matches WorkerMode::ByDuration { start_nanos, duration_nanos } && (now_nanos as int)
            < start_nanos + duration_nanos,
    ensures
        w.continues_at(now_nanos),
{
}

/// Law: a duration-mode worker stops the moment its clock reaches the
/// deadline, whatever its counters hold — in particular a worker whose
/// every request failed (all counters still zero) stops then too, so a
/// failing target can never stall the loop past the configured duration.
pub proof fn lemma_duration_worker_stops_at_deadline(w: Worker, now_nanos: u64)
    requires
        w.mode matches WorkerMode::ByDuration { start_nanos, duration_nanos } && (now_nanos as int)
            >= start_nanos + duration_nanos,
    ensures
        !w.continues_at(now_nanos),
{
}

} // verus!
