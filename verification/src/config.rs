//! The immutable description of one benchmark run: what to send requests to,
//! how many workers to run, and when each worker stops.

use vstd::prelude::*;

verus! {

/// The address a run drives, together with an optional request payload.
/// An empty payload means each request is a read-style (GET) exchange;
/// a non-empty payload is attached to every request as a write-style (POST)
/// body. A `Target` is immutable for the lifetime of a run and is shared
/// read-only by every worker.
#[derive(Clone, Debug)]
pub struct Target {
    pub hostname: String,
    pub payload: Vec<u8>,
}

impl Target {
    /// A target carrying a payload issues write-style requests.
    pub open spec fn is_write_spec(self) -> bool {
        self.payload@.len() > 0
    }

    pub fn new(hostname: String, payload: Vec<u8>) -> (t: Target)
        ensures
            t.hostname == hostname,
            t.payload == payload,
    {
        Target { hostname, payload }
    }

    /// Whether requests against this target carry the payload as a body.
    pub fn is_write(&self) -> (r: bool)
        ensures
            r == self.is_write_spec(),
    {
        self.payload.len() > 0
    }
}

/// When a worker's drive loop ends. Exactly one stopping discipline is
/// active per run; the two are mutually exclusive by construction.
#[derive(Clone, Copy, PartialEq, Eq, Structural, Debug)]
pub enum StopCondition {
    /// Duration-mode: each worker keeps issuing requests until the given
    /// wall-clock time has elapsed since its own start.
    Duration { duration_nanos: u64 },
    /// Count-mode: a total request budget is divided evenly across the
    /// workers (integer division; the remainder is dropped, not
    /// redistributed), and each worker stops after attempting exactly its
    /// share.
    Count { total_requests: u32 },
}

/// One point of a configuration sweep: a worker count and a stopping
/// condition shared by all of its workers.
#[derive(Clone, Copy, PartialEq, Eq, Structural, Debug)]
pub struct RunConfig {
    pub worker_count: u32,
    pub stop: StopCondition,
}

impl RunConfig {
    /// A configuration is meaningful when it has at least one worker and a
    /// positive duration or request budget.
    pub open spec fn wf(self) -> bool {
        &&& self.worker_count >= 1
        &&& match self.stop {
            StopCondition::Duration { duration_nanos } => duration_nanos > 0,
            StopCondition::Count { total_requests } => total_requests > 0,
        }
    }

    /// In count-mode, the share of the total budget that each worker
    /// attempts: `total_requests / worker_count`, truncated. In
    /// duration-mode no budget exists and the share is zero.
    pub open spec fn worker_share(self) -> u32
        recommends
            self.worker_count >= 1,
    {
        match self.stop {
            StopCondition::Duration { .. } => 0u32,
            StopCondition::Count { total_requests } => (total_requests / self.worker_count) as u32,
        }
    }
}

} // verus!
