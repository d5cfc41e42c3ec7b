//! The fixed set of visible-window widths the display offers.

use vstd::prelude::*;

verus! {

/// A selectable chart window width.
#[derive(Debug, Clone, Copy, PartialEq, Eq, Structural)]
pub enum TimeInterval {
    Second,
    TenSeconds,
    ThirtySeconds,
    Minute,
    FiveMinutes,
    ThirtyMinutes,
    Hour,
    ThreeHours,
    SixHours,
    TwelveHours,
    Day,
}

impl Default for TimeInterval {
    fn default() -> (r: Self)
        ensures
            r == TimeInterval::Minute,
    {
        TimeInterval::Minute
    }
}

/// The width of an interval in whole seconds.
pub open spec fn spec_interval_seconds(t: TimeInterval) -> u32 {
    match t {
        TimeInterval::Second => 1,
        TimeInterval::TenSeconds => 10,
        TimeInterval::ThirtySeconds => 30,
        TimeInterval::Minute => 60,
        TimeInterval::FiveMinutes => 300,
        TimeInterval::ThirtyMinutes => 1800,
        TimeInterval::Hour => 3600,
        TimeInterval::ThreeHours => 10800,
        TimeInterval::SixHours => 21600,
        TimeInterval::TwelveHours => 43200,
        TimeInterval::Day => 86400,
    }
}

impl TimeInterval {
    /// The width of this interval in whole seconds; at most one day.
    pub fn to_seconds(&self) -> (r: u32)
        ensures
            r == spec_interval_seconds(*self),
            r <= 86400,
    {
        match self {
            TimeInterval::Second => 1,
            TimeInterval::TenSeconds => 10,
            TimeInterval::ThirtySeconds => 30,
            TimeInterval::Minute => 60,
            TimeInterval::FiveMinutes => 300,
            TimeInterval::ThirtyMinutes => 1800,
            TimeInterval::Hour => 3600,
            TimeInterval::ThreeHours => 10800,
            TimeInterval::SixHours => 21600,
            TimeInterval::TwelveHours => 43200,
            TimeInterval::Day => 86400,
        }
    }
}

} // verus!
