//! Points in time as the record store keeps them.
use vstd::prelude::*;

verus! {

/// The latest second that is kept as a point in time, and the negative of the earliest.
pub const MAX_TIME: i64 = 4_000_000_000_000;

/// The nanoseconds in a second.
pub const SECOND: u32 = 1_000_000_000;

/// A point in time in UTC: `seconds` since the Unix epoch and `nanos` nanoseconds into
/// that second.
#[derive(Clone, Copy, Debug, PartialEq, Eq, Structural)]
pub struct Stamp {
    pub seconds: i64,
    pub nanos: u32,
}

/// `Stamp` as plain values, for contracts.
pub struct StampView {
    pub seconds: int,
    pub nanos: int,
}

impl View for Stamp {
    type V = StampView;

    open spec fn view(&self) -> StampView {
        StampView { seconds: self.seconds as int, nanos: self.nanos as int }
    }
}

/// The beginning of the second `seconds`.
pub open spec fn second(seconds: int) -> StampView {
    StampView { seconds, nanos: 0 }
}

/// Whether `stamp` is a point in time that the store keeps: its second lies within
/// `MAX_TIME` of the epoch and its nanoseconds are less than a second.
pub open spec fn is_time(stamp: StampView) -> bool {
    &&& -MAX_TIME <= stamp.seconds <= MAX_TIME
    &&& 0 <= stamp.nanos < SECOND
}

impl Stamp {
    /// The beginning of the second `seconds`.
    pub fn at(seconds: i64) -> (stamp: Stamp)
        ensures
            stamp@ == second(seconds as int),
    {
        Stamp { seconds, nanos: 0 }
    }

    /// Whether this is a point in time that the store keeps.
    pub fn is_valid(&self) -> (r: bool)
        ensures
            r == is_time(self@),
    {
        -MAX_TIME <= self.seconds && self.seconds <= MAX_TIME && self.nanos < SECOND
    }
}

} // verus!
