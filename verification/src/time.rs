//! Conversion between Ruby `Time` values and whole-second timer times.

use crate::text::{format_signed, join2, join3, signed_decimal};
use vstd::prelude::*;

verus! {

/// Sub-second part at or above which a time rounds up to the next second.
pub const NANOSECOND_ROUNDING_THRESHOLD: u32 = 500_000_000;

/// Why a Ruby time cannot become a timer time.
#[derive(Debug, Clone, PartialEq, Eq, Structural)]
pub enum TimeConversionError {
    /// The epoch second lies outside `0..=u32::MAX` (1970 to 2106).
    OutOfRange { epoch_seconds: i64 },
    /// Rounding the last representable second up would overflow.
    RoundingOverflow,
}

impl TimeConversionError {
    /// The message of the `ArgumentError` the conversion raises.
    pub open spec fn spec_message(&self) -> Seq<char> {
        match self {
            TimeConversionError::OutOfRange { epoch_seconds } => "Time "@ + signed_decimal(*epoch_seconds as int)
                + " is outside CompactDateTime range (1970-2106)"@,
            TimeConversionError::RoundingOverflow => "Time overflow during rounding to nearest second"@,
        }
    }

    /// The message of the `ArgumentError` the conversion raises.
    pub fn message(&self) -> (r: String)
        ensures
            r@ == self.spec_message(),
    {
        match self {
            TimeConversionError::OutOfRange { epoch_seconds } => {
                let n = format_signed(*epoch_seconds as i128);
                join3("Time ", n.as_str(), " is outside CompactDateTime range (1970-2106)")
            },
            TimeConversionError::RoundingOverflow => String::from_str("Time overflow during rounding to nearest second"),
        }
    }
}

/// The whole second a time rounds to: up when the sub-second part is at
/// least half a second.
pub open spec fn rounded_seconds(epoch_seconds: int, nanos: int) -> int {
    if nanos >= NANOSECOND_ROUNDING_THRESHOLD { epoch_seconds + 1 } else { epoch_seconds }
}

/// Converts a Ruby time, given as its epoch second (`Time#to_i`) and its
/// nanosecond part (`Time#nsec`), to the whole-second timer time.
pub fn time_to_compact_seconds(epoch_seconds: i64, nanos: u32) -> (r: Result<u32, TimeConversionError>)
    ensures
        (epoch_seconds < 0 || epoch_seconds > u32::MAX) ==> r == Err::<u32, TimeConversionError>(
            TimeConversionError::OutOfRange { epoch_seconds },
        ),
        (0 <= epoch_seconds <= u32::MAX && rounded_seconds(epoch_seconds as int, nanos as int) > u32::MAX)
            ==> r == Err::<u32, TimeConversionError>(TimeConversionError::RoundingOverflow),
        (0 <= epoch_seconds <= u32::MAX && rounded_seconds(epoch_seconds as int, nanos as int) <= u32::MAX)
            ==> r == Ok::<u32, TimeConversionError>(rounded_seconds(epoch_seconds as int, nanos as int) as u32),
{
    if epoch_seconds < 0 || epoch_seconds > u32::MAX as i64 {
        return Err(TimeConversionError::OutOfRange { epoch_seconds });
    }
    let seconds: u32 = epoch_seconds as u32;
    if nanos >= NANOSECOND_ROUNDING_THRESHOLD {
        if seconds == u32::MAX {
            Err(TimeConversionError::RoundingOverflow)
        } else {
            Ok(seconds + 1)
        }
    } else {
        Ok(seconds)
    }
}

/// The epoch second of a timer time, as the Ruby `Time.at` argument.
pub fn compact_seconds_to_epoch(seconds: u32) -> (r: i64)
    ensures
        r == seconds,
{
    seconds as i64
}

/// A timer operation of an event context.
#[derive(Debug, Clone, Copy, PartialEq, Eq, Structural)]
pub enum TimerOperation {
    /// `schedule(time)`.
    Schedule,
    /// `clear_and_schedule(time)`.
    ClearAndSchedule,
    /// `unschedule(time)`.
    Unschedule,
    /// `clear_scheduled`.
    ClearScheduled,
    /// `scheduled`.
    Scheduled,
}

/// What a failed timer operation reports before the runtime's own error
/// text.
pub open spec fn timer_failure_prefix(op: TimerOperation) -> Seq<char> {
    match op {
        TimerOperation::Schedule => "Failed to schedule timer: "@,
        TimerOperation::ClearAndSchedule => "Failed to clear and schedule timer: "@,
        TimerOperation::Unschedule => "Failed to unschedule timer: "@,
        TimerOperation::ClearScheduled => "Failed to clear scheduled timers: "@,
        TimerOperation::Scheduled => "Failed to get scheduled times: "@,
    }
}

/// The message of the `RuntimeError` a failed timer operation raises, given
/// the runtime's description of the failure.
pub fn timer_failure_message(op: TimerOperation, detail: &str) -> (r: String)
    ensures
        r@ == timer_failure_prefix(op) + detail@,
{
    let prefix = match op {
        TimerOperation::Schedule => "Failed to schedule timer: ",
        TimerOperation::ClearAndSchedule => "Failed to clear and schedule timer: ",
        TimerOperation::Unschedule => "Failed to unschedule timer: ",
        TimerOperation::ClearScheduled => "Failed to clear scheduled timers: ",
        TimerOperation::Scheduled => "Failed to get scheduled times: ",
    };
    join2(prefix, detail)
}

/// Timer times have whole-second precision: a time converts to the nearest
/// second, half a second rounding up, so the timer time is at most half a
/// second away from the Ruby time (`nanos` is `Time#nsec`, below a second).
pub proof fn law_rounds_to_nearest_second(epoch_seconds: i64, nanos: u32)
    requires
        nanos < 1_000_000_000,
        0 <= epoch_seconds <= u32::MAX,
        rounded_seconds(epoch_seconds as int, nanos as int) <= u32::MAX,
    ensures
        ({
            let t = rounded_seconds(epoch_seconds as int, nanos as int);
            let exact = epoch_seconds * 1_000_000_000 + nanos;
            -500_000_000 < t * 1_000_000_000 - exact <= 500_000_000
        }),
{
}

/// A whole-second time survives the round trip: converting a timer time to
/// a Ruby time and back gives the same timer time.
pub proof fn law_whole_seconds_round_trip(seconds: u32)
    ensures
        rounded_seconds(seconds as int, 0) == seconds as int,
{
}

} // verus!
