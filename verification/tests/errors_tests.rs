use prosody::errors::{
    first_line, BridgeError, ErrorCategory, GvlError, ProcessingError, RubyHandlerError,
    SchedulerError,
};

#[test]
fn processing_errors_classify_by_permanence() {
    assert_eq!(ProcessingError::Permanent("x".into()).classify_error(), ErrorCategory::Permanent);
    assert_eq!(ProcessingError::Transient("x".into()).classify_error(), ErrorCategory::Transient);
    assert_eq!(ProcessingError::Closed.classify_error(), ErrorCategory::Transient);
}

#[test]
fn handler_errors_are_transient_unless_processing_says_permanent() {
    let e = RubyHandlerError::Scheduler(SchedulerError::Submit("queue full".into()));
    assert_eq!(e.classify_error(), ErrorCategory::Transient);
    let e = RubyHandlerError::Bridge(BridgeError::Shutdown);
    assert_eq!(e.classify_error(), ErrorCategory::Transient);
    let e = RubyHandlerError::Processing(ProcessingError::Permanent("bad".into()));
    assert_eq!(e.classify_error(), ErrorCategory::Permanent);
    let e = RubyHandlerError::Processing(ProcessingError::Closed);
    assert_eq!(e.classify_error(), ErrorCategory::Transient);
}

#[test]
fn error_messages() {
    assert_eq!(ProcessingError::Transient("boom".into()).message(), "transient error: boom");
    assert_eq!(ProcessingError::Permanent("boom".into()).message(), "permanent error: boom");
    assert_eq!(ProcessingError::Closed.message(), "result channel has been closed");
    assert_eq!(SchedulerError::Submit("s".into()).message(), "failed to submit task: s");
    assert_eq!(SchedulerError::Cancel("c".into()).message(), "failed to cancel task: c");
    assert_eq!(SchedulerError::Shutdown("d".into()).message(), "failed to shutdown processor: d");
    assert_eq!(
        SchedulerError::Bridge(BridgeError::TaskDropped).message(),
        "async task was dropped before completion"
    );
    assert_eq!(BridgeError::TaskCreate("t".into()).message(), "failed to create async task: t");
    assert_eq!(BridgeError::Cancelled.message(), "command was cancelled by Ruby runtime");
    assert_eq!(BridgeError::Shutdown.message(), "Ruby bridge was shutdown");
    assert_eq!(
        BridgeError::Gvl(GvlError::Panicked).message(),
        "an error occurred while polling: panicked while attempting to call function running outside of the GVL"
    );
    assert_eq!(
        RubyHandlerError::Processing(ProcessingError::Permanent("p".into())).message(),
        "permanent error: p"
    );
    assert!(BridgeError::Shutdown.is_shutdown());
    assert!(!BridgeError::Cancelled.is_shutdown());
}

#[test]
fn first_line_keeps_text_before_the_first_line_ending() {
    assert_eq!(first_line("ab\r\ncd"), "ab");
    assert_eq!(first_line("one\ntwo\nthree"), "one");
    assert_eq!(first_line("single"), "single");
    assert_eq!(first_line(""), "");
    assert_eq!(first_line("\nrest"), "");
    assert_eq!(first_line("trailing\r"), "trailing\r");
    for s in ["a\nb", "x\r\ny", "plain", "", "\r\n", "r\rs\nt", "trailing\r"] {
        assert_eq!(first_line(s), s.lines().next().unwrap_or_default());
    }
}

#[test]
fn first_line_is_a_prefix_without_line_breaks() {
    for s in ["status\nmore", "a\r\nb\nc", "", "no break"] {
        let line = first_line(s);
        assert!(s.starts_with(line.as_str()));
        assert!(!line.contains('\n'));
    }
}
