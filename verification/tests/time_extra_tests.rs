use prosody::time::{timer_failure_message, TimeConversionError, TimerOperation};

#[test]
fn time_conversion_messages() {
    assert_eq!(
        TimeConversionError::OutOfRange { epoch_seconds: -5 }.message(),
        "Time -5 is outside CompactDateTime range (1970-2106)"
    );
    assert_eq!(
        TimeConversionError::RoundingOverflow.message(),
        "Time overflow during rounding to nearest second"
    );
}

#[test]
fn timer_failure_messages() {
    assert_eq!(timer_failure_message(TimerOperation::Schedule, "x"), "Failed to schedule timer: x");
    assert_eq!(
        timer_failure_message(TimerOperation::ClearAndSchedule, "y"),
        "Failed to clear and schedule timer: y"
    );
    assert_eq!(timer_failure_message(TimerOperation::Unschedule, "z"), "Failed to unschedule timer: z");
    assert_eq!(
        timer_failure_message(TimerOperation::ClearScheduled, "w"),
        "Failed to clear scheduled timers: w"
    );
    assert_eq!(timer_failure_message(TimerOperation::Scheduled, "v"), "Failed to get scheduled times: v");
}
