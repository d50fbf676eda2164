//! Spans of time and points in time, in whole seconds and nanoseconds.

use vstd::prelude::*;

verus! {

/// A span of time in whole seconds.
#[derive(Debug, Clone, Copy, PartialEq, Eq, Hash, Structural)]
pub struct Duration {
    pub seconds: i64,
}

impl Duration {
    pub fn seconds(seconds: i64) -> (duration: Self)
        ensures
            duration.seconds == seconds,
    {
        Duration { seconds }
    }

    pub fn whole_seconds(self) -> (seconds: i64)
        ensures
            seconds == self.seconds,
    {
        self.seconds
    }
}

/// A point in time: seconds since the Unix epoch, and the nanoseconds beyond them.
#[derive(Debug, Clone, Copy, PartialEq, Eq, Hash, Structural)]
pub struct Timestamp {
    pub seconds: i64,
    pub nanos: u32,
}

} // verus!
