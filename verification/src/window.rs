//! Wall-clock instants and the time window of a reduce call.
//!
//! The host assigns every record a half-open interval [start, end).  The
//! core never computes with times; it only carries them from the inbound
//! records to the outbound items, so an instant is held as its raw
//! seconds/nanoseconds pair.

use vstd::prelude::*;

verus! {

/// A wall-clock instant with nanosecond resolution, as seconds since the
/// Unix epoch plus a sub-second nanosecond part.
#[derive(Clone, Copy, Debug, PartialEq, Eq, Structural)]
pub struct TimePoint {
    pub seconds: i64,
    pub nanos: u32,
}

impl TimePoint {
    /// The Unix epoch, used where the host omitted an instant.
    pub fn epoch() -> (r: TimePoint)
        ensures
            r == (TimePoint { seconds: 0, nanos: 0 }),
    {
        TimePoint { seconds: 0, nanos: 0 }
    }
}

impl Default for TimePoint {
    fn default() -> (r: TimePoint)
        ensures
            r == (TimePoint { seconds: 0, nanos: 0 }),
    {
        TimePoint { seconds: 0, nanos: 0 }
    }
}

/// IntervalWindow is the start and end boundary of the window.
#[derive(Clone, Copy, Debug, PartialEq, Eq, Structural)]
pub struct IntervalWindow {
    /// start time of the window
    pub start_time: TimePoint,
    /// end time of the window
    pub end_time: TimePoint,
}

impl IntervalWindow {
    pub fn new(start_time: TimePoint, end_time: TimePoint) -> (r: IntervalWindow)
        ensures
            r == (IntervalWindow { start_time, end_time }),
    {
        IntervalWindow { start_time, end_time }
    }
}

impl Default for IntervalWindow {
    fn default() -> (r: IntervalWindow)
        ensures
            r == (IntervalWindow {
                start_time: TimePoint { seconds: 0, nanos: 0 },
                end_time: TimePoint { seconds: 0, nanos: 0 },
            }),
    {
        IntervalWindow {
            start_time: TimePoint { seconds: 0, nanos: 0 },
            end_time: TimePoint { seconds: 0, nanos: 0 },
        }
    }
}

/// Metadata is the additional information passed to a reducer: the window
/// its records belong to.
#[derive(Clone, Copy, Debug, PartialEq, Eq, Structural)]
pub struct Metadata {
    pub interval_window: IntervalWindow,
}

impl Metadata {
    pub fn new(interval_window: IntervalWindow) -> (r: Metadata)
        ensures
            r == (Metadata { interval_window }),
    {
        Metadata { interval_window }
    }
}

} // verus!
