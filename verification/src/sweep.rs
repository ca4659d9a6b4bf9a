//! The configuration sweep: one fleet run and one aggregation per
//! configuration, strictly in the order the configurations were given.
//!
//! The caller runs the configurations sequentially (never overlapping, so
//! one configuration's load cannot bias another's measurement) and hands
//! each run's raw material in; the sample sequence grows in configuration
//! order, not completion order. The policy on a failed aggregation is
//! fail-fast: the first error ends the sweep and names the worker count
//! that caused it, and no sample is recorded for the failed configuration.

use vstd::prelude::*;

use crate::aggregate::{aggregate, spec_aggregate, AggregateError, ConfigSample};
use crate::config::RunConfig;
use crate::worker::WorkerResult;

verus! {

/// The raw material one fleet run hands to aggregation: every worker's
/// result, and the wall time measured around the whole fleet (spawn to join
/// barrier).
pub struct FleetOutcome {
    pub results: Vec<WorkerResult>,
    pub wall_elapsed_nanos: u64,
}

impl FleetOutcome {
    /// A complete outcome for `config`: one well-formed result per worker.
    pub open spec fn complete_for(self, config: RunConfig) -> bool {
        &&& self.results@.len() == config.worker_count
        &&& forall|j: int| 0 <= j < self.results@.len() ==> (#[trigger] self.results@[j]).wf()
    }
}

/// The ordered accumulator of a sweep's samples. Samples are appended one
/// configuration at a time and never reordered.
pub struct ScalingRunner {
    pub samples: Vec<ConfigSample>,
}

impl ScalingRunner {
    pub fn new() -> (r: ScalingRunner)
        ensures
            r.samples@.len() == 0,
    {
        ScalingRunner { samples: Vec::new() }
    }

    /// Aggregate one configuration's run and append its sample. On an
    /// aggregation failure nothing is appended and the error — naming the
    /// failing configuration's worker count — is handed back for the caller
    /// to fail fast on.
    pub fn record_run(
        &mut self,
        config: &RunConfig,
        results: &Vec<WorkerResult>,
        wall_elapsed_nanos: u64,
    ) -> (r: Result<(), AggregateError>)
        requires
            config.wf(),
            results@.len() == config.worker_count,
            forall|i: int| 0 <= i < results@.len() ==> (#[trigger] results@[i]).wf(),
        ensures
            match spec_aggregate(*config, results@, wall_elapsed_nanos) {
                Ok(s) => r is Ok && final(self).samples@ == old(self).samples@.push(s),
                Err(e) => r == Err::<(), AggregateError>(e) && final(self).samples@ == old(
                    self,
                ).samples@,
            },
    {
        match aggregate(config, results, wall_elapsed_nanos) {
            Ok(s) => {
                self.samples.push(s);
                Ok(())
            },
            Err(e) => Err(e),
        }
    }

    /// The ordered sample sequence, for the report sink.
    pub fn into_samples(self) -> (v: Vec<ConfigSample>)
        ensures
            v == self.samples,
    {
        self.samples
    }
}

/// One full sweep over an ordered list of configurations whose runs have
/// been carried out one-to-one: aggregate each in order. On success the
/// samples line up with the configurations index for index; the first
/// aggregation failure ends the sweep (fail-fast) with the error of the
/// earliest failing configuration.
pub fn sweep(configs: &Vec<RunConfig>, runs: &Vec<FleetOutcome>) -> (r: Result<
    Vec<ConfigSample>,
    AggregateError,
>)
    requires
        configs@.len() == runs@.len(),
        forall|i: int| 0 <= i < configs@.len() ==> (#[trigger] configs@[i]).wf(),
        forall|i: int|
            0 <= i < runs@.len() ==> (#[trigger] runs@[i]).complete_for(configs@[i]),
    ensures
        match r {
            Ok(samples) => samples@.len() == configs@.len() && forall|i: int|
                0 <= i < configs@.len() ==> Ok::<ConfigSample, AggregateError>(
                    #[trigger] samples@[i],
                ) == spec_aggregate(configs@[i], runs@[i].results@, runs@[i].wall_elapsed_nanos),
            Err(e) => exists|k: int|
                0 <= k < configs@.len() && #[trigger] spec_aggregate(
                    configs@[k],
                    runs@[k].results@,
                    runs@[k].wall_elapsed_nanos,
                ) == Err::<ConfigSample, AggregateError>(e) && forall|i: int|
                    0 <= i < k ==> spec_aggregate(
                        #[trigger] configs@[i],
                        runs@[i].results@,
                        runs@[i].wall_elapsed_nanos,
                    ) is Ok,
        },
{
    let mut runner = ScalingRunner::new();
    let mut i: usize = 0;
    let n = configs.len();
    while i < n
        invariant
            n == configs@.len(),
            configs@.len() == runs@.len(),
            forall|k: int| 0 <= k < configs@.len() ==> (#[trigger] configs@[k]).wf(),
            forall|k: int|
                0 <= k < runs@.len() ==> (#[trigger] runs@[k]).complete_for(configs@[k]),
            i <= n,
            runner.samples@.len() == i,
            forall|k: int|
                0 <= k < i ==> Ok::<ConfigSample, AggregateError>(#[trigger] runner.samples@[k])
                    == spec_aggregate(
                    configs@[k],
                    runs@[k].results@,
                    runs@[k].wall_elapsed_nanos,
                ),
        decreases n - i,
    {
        let run = &runs[i];
        match runner.record_run(&configs[i], &run.results, run.wall_elapsed_nanos) {
            Ok(()) => {
                i = i + 1;
            },
            Err(e) => {
                proof {
                    let k = i as int;
                    assert(spec_aggregate(configs@[k], runs@[k].results@, runs@[k].wall_elapsed_nanos)
                        == Err::<ConfigSample, AggregateError>(e));
                    assert forall|j: int| 0 <= j < k implies spec_aggregate(
                        #[trigger] configs@[j],
                        runs@[j].results@,
                        runs@[j].wall_elapsed_nanos,
                    ) is Ok by {
                        assert(Ok::<ConfigSample, AggregateError>(runner.samples@[j])
                            == spec_aggregate(
                            configs@[j],
                            runs@[j].results@,
                            runs@[j].wall_elapsed_nanos,
                        ));
                    }
                }
                return Err(e);
            },
        }
    }
    Ok(runner.into_samples())
}

/// Law: a successful sweep yields exactly one sample per configuration, in
/// the order the configurations were given, each tagged with its own
/// configuration — whatever outcomes, latencies or wall times the
/// individual runs happened to see.
pub proof fn lemma_sweep_preserves_config_order(
    configs: Seq<RunConfig>,
    runs: Seq<FleetOutcome>,
    samples: Seq<ConfigSample>,
)
    requires
        samples.len() == configs.len(),
        configs.len() == runs.len(),
        forall|i: int|
            0 <= i < configs.len() ==> Ok::<ConfigSample, AggregateError>(#[trigger] samples[i])
                == spec_aggregate(configs[i], runs[i].results@, runs[i].wall_elapsed_nanos),
    ensures
        forall|i: int| 0 <= i < samples.len() ==> (#[trigger] samples[i]).config == configs[i],
{
    assert forall|i: int| 0 <= i < samples.len() implies (#[trigger] samples[i]).config
        == configs[i] by {
        assert(Ok::<ConfigSample, AggregateError>(samples[i]) == spec_aggregate(
            configs[i],
            runs[i].results@,
            runs[i].wall_elapsed_nanos,
        ));
    }
}

} // verus!
