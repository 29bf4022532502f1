use prosody::errors::{ProcessingError, RubyHandlerError, SchedulerError};
use prosody::handler::{
    check_fork, consumer_state_name, dispatches_timer, event_outcome, handler_check_next,
    handler_check_start, handler_method_name, message_event_context, message_task_id, processing_result,
    received_result, response_error, timer_event_context, timer_task_id, ConsumerState,
    EventRace, HandlerCheck, Message, ResponseError, Timer, TimerType,
};

fn message() -> Message {
    Message::new("orders".into(), 3, 42, "order-1".into(), 1_700_000_000_123_456)
}

#[test]
fn message_accessors() {
    let m = message();
    assert_eq!(m.topic(), "orders");
    assert_eq!(m.partition(), 3);
    assert_eq!(m.offset(), 42);
    assert_eq!(m.key(), "order-1");
    assert_eq!(m.timestamp_micros(), 1_700_000_000_123_456);
}

#[test]
fn timer_accessors() {
    let t = Timer::new("customer-9".into(), 1_700_000_000);
    assert_eq!(t.key(), "customer-9");
    assert_eq!(t.time(), 1_700_000_000i64);
}

#[test]
fn message_task_id_is_topic_partition_offset() {
    assert_eq!(message_task_id(&message()), "orders/3:42");
    let m = Message::new("t".into(), -1, -9, "k".into(), 0);
    assert_eq!(message_task_id(&m), "t/-1:-9");
}

#[test]
fn message_event_context_lists_the_coordinates() {
    let ctx = message_event_context(&message());
    let expected: Vec<(String, String)> = vec![
        ("event_type".into(), "message".into()),
        ("topic".into(), "orders".into()),
        ("partition".into(), "3".into()),
        ("key".into(), "order-1".into()),
        ("offset".into(), "42".into()),
    ];
    assert_eq!(ctx, expected);
}

#[test]
fn timer_task_id_and_context() {
    let t = Timer::new("customer-9".into(), 10);
    assert_eq!(timer_task_id(&t, "1970-01-01T00:00:10Z"), "timer/customer-9/1970-01-01T00:00:10Z");
    let ctx = timer_event_context(&t, "10");
    let expected: Vec<(String, String)> = vec![
        ("event_type".into(), "timer".into()),
        ("key".into(), "customer-9".into()),
        ("time".into(), "10".into()),
    ];
    assert_eq!(ctx, expected);
}

#[test]
fn only_application_timers_reach_ruby() {
    assert!(dispatches_timer(TimerType::Application));
    assert!(!dispatches_timer(TimerType::Internal));
}

fn run(responds: [bool; 3], inherited: [bool; 3]) -> Result<(), String> {
    let mut step = handler_check_start();
    loop {
        step = match step {
            HandlerCheck::AskResponds(i) => handler_check_next(&step, responds[i]),
            HandlerCheck::AskInherited(i) => handler_check_next(&step, inherited[i]),
            HandlerCheck::Valid => return Ok(()),
            HandlerCheck::Invalid(m) => return Err(m),
        };
    }
}

#[test]
fn complete_handler_is_accepted() {
    assert_eq!(run([true, true, true], [false, false, false]), Ok(()));
}

#[test]
fn handler_missing_a_method_is_rejected_naming_it() {
    assert_eq!(
        run([true, false, true], [false, false, false]),
        Err("handler must implement #on_excise".to_string())
    );
    assert_eq!(
        run([false, false, false], [false, false, false]),
        Err("handler must implement #on_message".to_string())
    );
}

#[test]
fn handler_inheriting_a_method_is_rejected_naming_it() {
    assert_eq!(
        run([true, true, true], [false, false, true]),
        Err("handler must implement #on_timer".to_string())
    );
}

#[test]
fn processing_results() {
    assert_eq!(processing_result(true, true, "ignored".into()), Ok(()));
    assert_eq!(
        processing_result(false, true, "boom".into()),
        Err(ProcessingError::Permanent("boom".into()))
    );
    assert_eq!(
        processing_result(false, false, "boom".into()),
        Err(ProcessingError::Transient("boom".into()))
    );
    assert_eq!(received_result(None), Err(ProcessingError::Closed));
    assert_eq!(received_result(Some(Ok(()))), Ok(()));
}

#[test]
fn event_outcomes() {
    assert!(event_outcome(EventRace::Finished(Ok(()))).is_ok());
    match event_outcome(EventRace::Finished(Err(ProcessingError::Closed))) {
        Err(RubyHandlerError::Processing(ProcessingError::Closed)) => {}
        other => panic!("unexpected {other:?}"),
    }
    match event_outcome(EventRace::Cancelled {
        cancel: Err(SchedulerError::Cancel("gone".into())),
        result: None,
    }) {
        Err(RubyHandlerError::Scheduler(SchedulerError::Cancel(m))) => assert_eq!(m, "gone"),
        other => panic!("unexpected {other:?}"),
    }
    match event_outcome(EventRace::Cancelled {
        cancel: Ok(()),
        result: Some(Err(ProcessingError::Transient("cancelled".into()))),
    }) {
        Err(RubyHandlerError::Processing(ProcessingError::Transient(m))) => assert_eq!(m, "cancelled"),
        other => panic!("unexpected {other:?}"),
    }
    assert!(event_outcome(EventRace::Cancelled { cancel: Ok(()), result: Some(Ok(())) }).is_ok());
}

#[test]
fn response_errors_name_their_ruby_class() {
    assert_eq!(
        response_error(ResponseError::Handler { message: "nope".into() }),
        ("HandlerError", Some("nope".to_string()))
    );
    assert_eq!(response_error(ResponseError::Timeout), ("Timeout", None));
    assert_eq!(response_error(ResponseError::FormatMismatch), ("FormatMismatch", None));
    assert_eq!(response_error(ResponseError::Malformed), ("MalformedResponse", None));
}

#[test]
fn consumer_state_names() {
    assert_eq!(consumer_state_name(&ConsumerState::Shutdown), Ok("shut_down"));
    assert_eq!(consumer_state_name(&ConsumerState::Unconfigured), Ok("unconfigured"));
    assert_eq!(consumer_state_name(&ConsumerState::Configured), Ok("configured"));
    assert_eq!(consumer_state_name(&ConsumerState::Running), Ok("running"));
    assert_eq!(
        consumer_state_name(&ConsumerState::ConfigurationFailed("bad brokers".into())),
        Err("consumer configuration failed: bad brokers".to_string())
    );
}

#[test]
fn clients_are_bound_to_their_process() {
    assert_eq!(check_fork(7, 7), Ok(()));
    assert_eq!(
        check_fork(8, 7),
        Err("Prosody::Client cannot be used after fork. Create a new client in the child process.".to_string())
    );
}

#[test]
fn task_ids_tell_messages_apart() {
    let a = Message::new("a/1:2".into(), 3, 4, "k".into(), 0);
    let b = Message::new("a".into(), 1, 2, "k".into(), 0);
    let c = Message::new("a/1:2".into(), 34, 0, "k".into(), 0);
    let ids = [message_task_id(&a), message_task_id(&b), message_task_id(&c)];
    assert_eq!(ids[0], "a/1:2/3:4");
    assert_eq!(ids[1], "a/1:2");
    assert_eq!(ids[2], "a/1:2/34:0");
    assert_ne!(ids[0], ids[1]);
    assert_ne!(ids[0], ids[2]);
    assert_ne!(ids[1], ids[2]);
}

#[test]
fn handler_methods_in_check_order() {
    assert_eq!(handler_method_name(0), "on_message");
    assert_eq!(handler_method_name(1), "on_excise");
    assert_eq!(handler_method_name(2), "on_timer");
}
