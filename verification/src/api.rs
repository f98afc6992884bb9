//! What the transport layer takes from the library besides the services.

use vstd::prelude::*;

verus! {

/// The unit in which the latency of a request is reported.
#[derive(Copy, Clone, Debug)]
pub enum LatencyUnit {
    /// Use seconds.
    Seconds,
    /// Use milliseconds.
    Millis,
    /// Use microseconds.
    Micros,
    /// Use nanoseconds.
    Nanos,
}

/// The lowest status that reports a failure.
pub const FIRST_FAILURE_STATUS: u16 = 400;

/// Whether a response with this status is logged as an error: every client
/// and server failure is.
pub fn is_failure_status(status: u16) -> (failure: bool)
    ensures
        failure == (status >= FIRST_FAILURE_STATUS),
{
    status >= FIRST_FAILURE_STATUS
}

} // verus!
