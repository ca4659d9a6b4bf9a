//! Cross-worker aggregation: turn one configuration's raw per-worker counts
//! into a single comparable sample.
//!
//! All success counts are summed; duration-mode derives a throughput,
//! count-mode a mean latency over the successful requests (the mean is
//! taken over successes, not attempts — failed attempts contribute neither
//! numerator nor denominator). The engine holds no floating point:
//! throughput is a fixed-point value in thousandths of a request per
//! second, latency a whole number of nanoseconds. A division whose
//! denominator would be zero — no success at all, or a zero wall time — is
//! an explicit error, never a silently coerced zero or garbage value.

use vstd::prelude::*;

use crate::config::{RunConfig, StopCondition};
use crate::worker::WorkerResult;

verus! {

/// Nanoseconds per second times the fixed-point scale of a thousandth of a
/// request: dividing `successes * MILLI_RPS_SCALE` by a nanosecond wall
/// time yields milli-requests-per-second.
pub const MILLI_RPS_SCALE: u128 = 1_000_000_000_000;

/// The derived metric of one configuration.
#[derive(Clone, Copy, PartialEq, Eq, Structural, Debug)]
pub enum Metric {
    /// Duration-mode: throughput, in thousandths of a request per second
    /// (`total_successes * MILLI_RPS_SCALE / wall_elapsed_nanos`,
    /// truncated).
    MilliRequestsPerSecond(u128),
    /// Count-mode: mean latency of the successful requests, in whole
    /// nanoseconds (`total_latency / total_successes`, truncated).
    AverageLatencyNanos(u128),
}

/// One aggregated measurement: the configuration it came from, the summed
/// success count, the wall time measured around the whole fleet, and the
/// derived metric — everything a report needs without recomputation.
#[derive(Clone, Copy, PartialEq, Eq, Structural, Debug)]
pub struct ConfigSample {
    pub config: RunConfig,
    pub total_successes: u64,
    pub wall_elapsed_nanos: u64,
    pub metric: Metric,
}

/// Why one configuration could not be aggregated. Each variant names the
/// worker count of the configuration that produced it, so a failed sweep
/// can say which configuration was at fault.
#[derive(Clone, Copy, PartialEq, Eq, Structural, Debug)]
pub enum AggregateError {
    /// Not one request succeeded, so neither a throughput nor a mean
    /// latency has a denominator.
    NoSuccesses { worker_count: u32 },
    /// The measured wall time was zero, so no rate can be derived.
    ZeroElapsed { worker_count: u32 },
}

/// Sum of the success counts over a set of worker results.
pub open spec fn total_successes(rs: Seq<WorkerResult>) -> int
    decreases rs.len(),
{
    if rs.len() == 0 {
        0
    } else {
        total_successes(rs.drop_last()) + rs.last().successes
    }
}

/// Sum of the latency sums over a set of worker results.
pub open spec fn total_latency(rs: Seq<WorkerResult>) -> int
    decreases rs.len(),
{
    if rs.len() == 0 {
        0
    } else {
        total_latency(rs.drop_last()) + rs.last().latency_sum_nanos
    }
}

/// What aggregation returns, as a function of its inputs: the error cases
/// first (no success, then zero wall time), otherwise the sample with the
/// metric of the configuration's mode.
pub open spec fn spec_aggregate(
    config: RunConfig,
    rs: Seq<WorkerResult>,
    wall_elapsed_nanos: u64,
) -> Result<ConfigSample, AggregateError> {
    let total = total_successes(rs);
    if total == 0 {
        Err(AggregateError::NoSuccesses { worker_count: config.worker_count })
    } else if wall_elapsed_nanos == 0 {
        Err(AggregateError::ZeroElapsed { worker_count: config.worker_count })
    } else {
        Ok(
            ConfigSample {
                config,
                total_successes: total as u64,
                wall_elapsed_nanos,
                metric: match config.stop {
                    StopCondition::Duration { .. } => Metric::MilliRequestsPerSecond(
                        ((total * MILLI_RPS_SCALE) / (wall_elapsed_nanos as int)) as u128,
                    ),
                    StopCondition::Count { .. } => Metric::AverageLatencyNanos(
                        (total_latency(rs) / total) as u128,
                    ),
                },
            },
        )
    }
}

/// Combine one configuration's worker results and measured wall time into
/// its sample. Fails, explicitly, exactly when no request succeeded or the
/// wall time is zero; succeeds on every other input with the sums and the
/// truncated division `spec_aggregate` states.
pub fn aggregate(
    config: &RunConfig,
    results: &Vec<WorkerResult>,
    wall_elapsed_nanos: u64,
) -> (r: Result<ConfigSample, AggregateError>)
    requires
        config.wf(),
        results@.len() == config.worker_count,
        forall|i: int| 0 <= i < results@.len() ==> (#[trigger] results@[i]).wf(),
    ensures
        r == spec_aggregate(*config, results@, wall_elapsed_nanos),
{
    let n = results.len();
    let mut total: u64 = 0;
    let mut latency: u128 = 0;
    let mut i: usize = 0;
    while i < n
        invariant
            n == results@.len(),
            n <= u32::MAX,
            forall|k: int| 0 <= k < results@.len() ==> (#[trigger] results@[k]).wf(),
            i <= n,
            total == total_successes(results@.subrange(0, i as int)),
            latency == total_latency(results@.subrange(0, i as int)),
            total <= i * (u32::MAX as int),
            latency as int <= (total as int) * (u64::MAX as int),
        decreases n - i,
    {
        let r = results[i];
        proof {
            let pre = results@.subrange(0, i as int);
            let post = results@.subrange(0, i as int + 1);
            assert(post.drop_last() =~= pre);
            assert(post.last() == results@[i as int]);
            assert(results@[i as int].wf());
            assert((i + 1) * (u32::MAX as int) == i * (u32::MAX as int) + (u32::MAX as int))
                by (nonlinear_arith);
            assert((i + 1) * (u32::MAX as int) <= (u32::MAX as int) * (u32::MAX as int))
                by (nonlinear_arith)
                requires
                    0 <= i + 1 <= u32::MAX as int,
            ;
            assert((total as int) * (u64::MAX as int) + (r.successes as int) * (u64::MAX as int)
                == (total as int + r.successes as int) * (u64::MAX as int)) by (nonlinear_arith);
            assert((total as int + r.successes as int) * (u64::MAX as int) <= (u64::MAX as int) * (
            u64::MAX as int)) by (nonlinear_arith)
                requires
                    0 <= total as int + r.successes as int <= u64::MAX as int,
            ;
        }
        total = total + r.successes as u64;
        latency = latency + r.latency_sum_nanos;
        i = i + 1;
    }
    proof {
        assert(results@.subrange(0, n as int) =~= results@);
    }
    if total == 0 {
        return Err(AggregateError::NoSuccesses { worker_count: config.worker_count });
    }
    if wall_elapsed_nanos == 0 {
        return Err(AggregateError::ZeroElapsed { worker_count: config.worker_count });
    }
    let metric = match config.stop {
        StopCondition::Duration { .. } => Metric::MilliRequestsPerSecond(
            (total as u128) * MILLI_RPS_SCALE / (wall_elapsed_nanos as u128),
        ),
        StopCondition::Count { .. } => Metric::AverageLatencyNanos(latency / (total as u128)),
    };
    Ok(
        ConfigSample {
            config: *config,
            total_successes: total,
            wall_elapsed_nanos,
            metric,
        },
    )
}

} // verus!
