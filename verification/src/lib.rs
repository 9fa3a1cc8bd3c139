//! Verified core of a small observability-demo HTTP service: the telemetry
//! bookkeeping (span lifecycle, metric aggregation, bootstrap and shutdown
//! ordering, profiling-agent state) and the pure decision logic of the
//! request handlers. The unverified binary around this crate only moves
//! bytes: it accepts connections, parses requests, sleeps and forwards
//! plain values into the functions here.

pub mod bootstrap;
pub mod handlers;
pub mod labels;
pub mod metrics;
pub mod middleware;
pub mod profiling;
pub mod span;
pub mod textnum;

use vstd::prelude::*;

verus! {

/// How many milliseconds the artificial slow route waits before replying.
pub const SLOW_DELAY_MS: u64 = 2000;

/// How many milliseconds the user route waits to imitate a database lookup.
pub const USER_LOOKUP_DELAY_MS: u64 = 100;

} // verus!
