use prosody::logging::{log_method, LogLevel, Visitor};

#[test]
fn levels_map_to_logger_methods() {
    assert_eq!(log_method(LogLevel::Error), "error");
    assert_eq!(log_method(LogLevel::Warn), "warn");
    assert_eq!(log_method(LogLevel::Info), "info");
    assert_eq!(log_method(LogLevel::Debug), "debug");
    assert_eq!(log_method(LogLevel::Trace), "debug");
}

#[test]
fn renders_message_then_fields_in_recording_order() {
    let mut v = Visitor::new(Some("prosody::bridge"), Some(3));
    v.record_i64("offset", -4);
    v.record_u64("partition", 2);
    v.record_bool("retry", true);
    v.record_str("topic", "orders");
    v.record_debug("message", "\"poll failed\"".to_string());
    v.record_i128("big", -170141183460469231731687303715884105728);
    v.record_u128("huge", 340282366920938463463374607431768211455);
    v.record_debug("error", "Closed".to_string());
    assert_eq!(
        v.render(),
        "\"poll failed\" module=prosody::bridge line=3 offset=-4 partition=2 retry=true topic=orders \
         big=-170141183460469231731687303715884105728 huge=340282366920938463463374607431768211455 error=Closed"
    );
}

#[test]
fn renders_fields_alone_without_message() {
    let mut v = Visitor::new(None, None);
    assert_eq!(v.render(), "");
    v.push_kv("a", "1");
    assert_eq!(v.render(), "a=1");
    v.record_bool("b", false);
    assert_eq!(v.render(), "a=1 b=false");
    let v = Visitor::new(None, Some(12));
    assert_eq!(v.render(), "line=12");
    let mut v = Visitor::new(Some("m"), None);
    v.record_debug("message", "hi".to_string());
    assert_eq!(v.render(), "hi module=m");
}
