//! A concurrent HTTP load-generation engine: a fleet of workers drives a
//! target with requests until a stopping condition is met, and the raw
//! per-worker counts are aggregated into throughput or latency samples
//! across a sweep of worker-count configurations.
//!
//! The engine itself is pure logic over plain values: workers, the fleet and
//! the aggregation are state machines whose transitions are verified. The
//! surrounding I/O (issuing one HTTP request, reading the clock, scheduling
//! the concurrent tasks) is performed by the caller, which feeds the
//! outcomes back in as events.

pub mod aggregate;
pub mod config;
pub mod fleet;
pub mod payload;
pub mod sweep;
pub mod worker;
