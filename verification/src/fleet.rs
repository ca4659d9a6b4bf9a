//! The fleet: one configuration's full set of workers.
//!
//! `Fleet::start` seeds exactly `worker_count` workers, all for the same
//! configuration and the same stopping condition. The caller schedules their
//! drive loops concurrently (each worker is a plain value it can move into
//! its own task), reassembles the finished workers, and `into_results`
//! yields one `WorkerResult` per worker. The only cross-worker
//! synchronisation the engine asks for is the caller's join barrier: no
//! worker's result is read before every worker has stopped.

use vstd::prelude::*;

use crate::config::{RunConfig, StopCondition};
use crate::worker::{Worker, WorkerMode, WorkerResult};

verus! {

/// Count-mode attempts consumed across a set of workers.
pub open spec fn total_attempted(ws: Seq<Worker>) -> int
    decreases ws.len(),
{
    if ws.len() == 0 {
        0
    } else {
        total_attempted(ws.drop_last()) + ws.last().attempted_count()
    }
}

/// The workers of one configuration. The `Vec` only gathers them for
/// seeding and for the final collection; during the drive loops each worker
/// is owned by its own task and nothing here is shared.
pub struct Fleet {
    pub workers: Vec<Worker>,
}

impl Fleet {
    /// A fleet freshly seeded for `config`: exactly `worker_count` workers,
    /// every one in the initial state for that configuration.
    pub open spec fn seeded_for(self, config: RunConfig, start_nanos: u64) -> bool {
        &&& self.workers@.len() == config.worker_count
        &&& forall|i: int|
            0 <= i < self.workers@.len() ==> self.workers@[i] == Worker::initial(
                config,
                start_nanos,
            )
    }

    /// Spawn-side half of a run: build one worker per unit of
    /// `worker_count`, all against the same stopping condition, ready to be
    /// handed to concurrent tasks.
    pub fn start(config: &RunConfig, start_nanos: u64) -> (f: Fleet)
        requires
            config.wf(),
        ensures
            f.seeded_for(*config, start_nanos),
    {
        let mut workers: Vec<Worker> = Vec::new();
        let mut i: u32 = 0;
        while i < config.worker_count
            invariant
                config.wf(),
                i <= config.worker_count,
                workers@.len() == i,
                forall|j: int|
                    0 <= j < workers@.len() ==> workers@[j] == Worker::initial(
                        *config,
                        start_nanos,
                    ),
            decreases config.worker_count - i,
        {
            workers.push(Worker::start(config, start_nanos));
            i = i + 1;
        }
        Fleet { workers }
    }

    /// Join-side half of a run: every worker has stopped and yields its
    /// result. The order is the fleet's own; the aggregation only sums, so
    /// no order is promised to mean anything.
    pub fn into_results(self) -> (rs: Vec<WorkerResult>)
        ensures
            rs@.len() == self.workers@.len(),
            forall|i: int|
                0 <= i < rs@.len() ==> (#[trigger] rs@[i]).successes
                    == self.workers@[i].successes && rs@[i].latency_sum_nanos
                    == self.workers@[i].latency_sum_nanos,
            forall|i: int| 0 <= i < rs@.len() && self.workers@[i].wf() ==> (#[trigger] rs@[i]).wf(),
    {
        let mut rs: Vec<WorkerResult> = Vec::new();
        let mut i: usize = 0;
        let n = self.workers.len();
        while i < n
            invariant
                n == self.workers@.len(),
                i <= n,
                rs@.len() == i,
                forall|j: int|
                    0 <= j < rs@.len() ==> (#[trigger] rs@[j]).successes
                        == self.workers@[j].successes && rs@[j].latency_sum_nanos
                        == self.workers@[j].latency_sum_nanos,
                forall|j: int|
                    0 <= j < rs@.len() && self.workers@[j].wf() ==> (#[trigger] rs@[j]).wf(),
            decreases n - i,
        {
            let w = self.workers[i];
            rs.push(w.finish());
            i = i + 1;
        }
        rs
    }
}

/// Law: a fleet seeded for a duration-mode configuration holds exactly
/// `worker_count` workers, and before the configured duration has elapsed
/// not one of them stops — so collecting the fleet once every drive loop
/// has ended yields `worker_count` results, none earlier than the duration
/// allows. `record` never moves a duration-mode deadline, so this holds
/// throughout the run, not only at seeding.
pub proof fn lemma_duration_fleet_spans_duration(
    f: Fleet,
    config: RunConfig,
    start_nanos: u64,
    now_nanos: u64,
)
    requires
        config.wf(),
        f.seeded_for(config, start_nanos),
        config.stop matches StopCondition::Duration { duration_nanos } && (now_nanos as int)
            < start_nanos + duration_nanos,
    ensures
        f.workers@.len() == config.worker_count,
        forall|i: int| 0 <= i < f.workers@.len() ==> (#[trigger] f.workers@[i]).continues_at(
            now_nanos,
        ),
{
}

/// Sum of a worker set whose members all consumed the same budget.
proof fn lemma_total_attempted_constant(ws: Seq<Worker>, s: int)
    requires
        forall|i: int| 0 <= i < ws.len() ==> (#[trigger] ws[i]).attempted_count() == s,
    ensures
        total_attempted(ws) == ws.len() * s,
    decreases ws.len(),
{
    if ws.len() > 0 {
        lemma_total_attempted_constant(ws.drop_last(), s);
        assert((ws.len() - 1) * s + s == ws.len() * s) by (nonlinear_arith);
    }
}

/// Law: count-mode divides the budget evenly and drops the remainder. When
/// every worker of a fleet started for a count-mode configuration has
/// exhausted its share, the attempts across the fleet total exactly
/// `worker_count * (total_requests / worker_count)` — never more than the
/// budget, and short of it by less than one worker's worth.
pub proof fn lemma_count_mode_attempts(ws: Seq<Worker>, config: RunConfig)
    requires
        config.wf(),
        config.stop is Count,
        ws.len() == config.worker_count,
        forall|i: int| 0 <= i < ws.len() ==> (#[trigger] ws[i]).wf(),
        forall|i: int|
            0 <= i < ws.len() ==> ((#[trigger] ws[i]).mode matches WorkerMode::ByCount {
                share,
                attempted,
            } && share == config.worker_share() && attempted >= share),
    ensures
        total_attempted(ws) == (config.worker_count as int) * (config.worker_share() as int),
        (config.worker_count as int) * (config.worker_share() as int)
            <= config.stop->total_requests,
        config.stop->total_requests - (config.worker_count as int) * (
        config.worker_share() as int) < config.worker_count,
{
    let s = config.worker_share() as int;
    assert forall|i: int| 0 <= i < ws.len() implies (#[trigger] ws[i]).attempted_count() == s by {
        assert(ws[i].wf());
    }
    lemma_total_attempted_constant(ws, s);
    let t = config.stop->total_requests as int;
    let w = config.worker_count as int;
    vstd::arithmetic::div_mod::lemma_fundamental_div_mod(t, w);
    vstd::arithmetic::div_mod::lemma_mod_bound(t, w);
}

} // verus!
