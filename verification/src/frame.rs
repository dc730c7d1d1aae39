//! Selection of the timestamp at which the tracking source is queried.

use vstd::prelude::*;

verus! {

/// Predicted display timing for the frame being simulated, in nanoseconds.
///
/// `predicted_display_time` is the time the renderer expects to present at;
/// `predicted_display_period` is the expected interval between presentations.
#[derive(Clone, Copy, PartialEq, Eq, Structural, Debug)]
pub struct FrameTiming {
    pub predicted_display_time: i64,
    pub predicted_display_period: i64,
}

/// The timestamp a tick queries the tracking source at: the predicted display
/// time itself, or one extra display period ahead when the renderer runs
/// pipelined (frame submission lags simulation by one period).
pub open spec fn query_time_spec(timing: FrameTiming, pipelined: bool) -> int {
    if pipelined {
        timing.predicted_display_time + timing.predicted_display_period
    } else {
        timing.predicted_display_time as int
    }
}

/// Chooses the query timestamp for one tick.
///
/// Pure function of its inputs: non-pipelined mode returns the predicted
/// display time exactly; pipelined mode returns the nanosecond-exact sum of
/// the predicted display time and the predicted display period.
pub fn select_query_time(timing: &FrameTiming, pipelined: bool) -> (t: i64)
    requires
        pipelined ==> i64::MIN <= timing.predicted_display_time + timing.predicted_display_period
            <= i64::MAX,
    ensures
        t == query_time_spec(*timing, pipelined),
        !pipelined ==> t == timing.predicted_display_time,
        pipelined ==> t == timing.predicted_display_time + timing.predicted_display_period,
{
    if pipelined {
        timing.predicted_display_time + timing.predicted_display_period
    } else {
        timing.predicted_display_time
    }
}

} // verus!
