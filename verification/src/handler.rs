//! Events as Ruby handlers see them, and the decisions around dispatching
//! them: which handler objects are acceptable, how tasks are named and
//! described, and what a finished task reports.

use crate::errors::{ProcessingError, RubyHandlerError, SchedulerError};
use crate::text::{format_signed, is_digit, join2, join3, lemma_signed_decimal, lemma_split_at_last, signed_decimal};
use vstd::prelude::*;

verus! {

/// A Kafka message as Ruby handlers read it.
#[derive(Debug)]
pub struct Message {
    topic: String,
    partition: i32,
    offset: i64,
    key: String,
    timestamp_micros: i64,
}

impl Message {
    /// A message with these coordinates, key and timestamp (microseconds
    /// since the epoch).
    pub fn new(topic: String, partition: i32, offset: i64, key: String, timestamp_micros: i64) -> (r: Self)
        ensures
            r.spec_topic() == topic@,
            r.spec_partition() == partition,
            r.spec_offset() == offset,
            r.spec_key() == key@,
            r.spec_timestamp_micros() == timestamp_micros,
    {
        Message { topic, partition, offset, key, timestamp_micros }
    }

    pub closed spec fn spec_topic(&self) -> Seq<char> {
        self.topic@
    }

    pub closed spec fn spec_partition(&self) -> i32 {
        self.partition
    }

    pub closed spec fn spec_offset(&self) -> i64 {
        self.offset
    }

    pub closed spec fn spec_key(&self) -> Seq<char> {
        self.key@
    }

    pub closed spec fn spec_timestamp_micros(&self) -> i64 {
        self.timestamp_micros
    }

    /// The topic name this message was published to.
    pub fn topic(&self) -> (r: &str)
        ensures
            r@ == self.spec_topic(),
    {
        self.topic.as_str()
    }

    /// The Kafka partition number of this message.
    pub fn partition(&self) -> (r: i32)
        ensures
            r == self.spec_partition(),
    {
        self.partition
    }

    /// The offset of this message within its partition.
    pub fn offset(&self) -> (r: i64)
        ensures
            r == self.spec_offset(),
    {
        self.offset
    }

    /// The message key.
    pub fn key(&self) -> (r: &str)
        ensures
            r@ == self.spec_key(),
    {
        self.key.as_str()
    }

    /// The message timestamp, in microseconds since the epoch (the argument
    /// of `Time.at(_, :microsecond)`).
    pub fn timestamp_micros(&self) -> (r: i64)
        ensures
            r == self.spec_timestamp_micros(),
    {
        self.timestamp_micros
    }
}

/// A timer firing as Ruby handlers read it.
#[derive(Debug)]
pub struct Timer {
    key: String,
    time: u32,
}

impl Timer {
    /// A timer for this entity key firing at this epoch second.
    pub fn new(key: String, time: u32) -> (r: Self)
        ensures
            r.spec_key() == key@,
            r.spec_time() == time,
    {
        Timer { key, time }
    }

    pub closed spec fn spec_key(&self) -> Seq<char> {
        self.key@
    }

    pub closed spec fn spec_time(&self) -> u32 {
        self.time
    }

    /// The entity key identifying what this timer belongs to.
    pub fn key(&self) -> (r: &str)
        ensures
            r@ == self.spec_key(),
    {
        self.key.as_str()
    }

    /// The epoch second at which this timer fires (timers have no sub-second
    /// precision).
    pub fn time(&self) -> (r: i64)
        ensures
            r == self.spec_time(),
    {
        self.time as i64
    }
}

// ---------------------------------------------------------------------------
// Task naming
// ---------------------------------------------------------------------------

/// The task id of a message: `topic/partition:offset`.
pub open spec fn spec_message_task_id(topic: Seq<char>, partition: int, offset: int) -> Seq<char> {
    topic + "/"@ + signed_decimal(partition) + ":"@ + signed_decimal(offset)
}

/// Names the task that handles a message.
pub fn message_task_id(message: &Message) -> (r: String)
    ensures
        r@ == spec_message_task_id(message.spec_topic(), message.spec_partition() as int, message.spec_offset() as int),
{
    let partition = format_signed(message.partition() as i128);
    let offset = format_signed(message.offset() as i128);
    let mut s = join3(message.topic(), "/", partition.as_str());
    s.append(":");
    s.append(offset.as_str());
    s
}

/// Task ids name messages uniquely: two messages get the same task id only
/// when they have the same topic, partition and offset.
pub proof fn law_message_task_ids_are_unique(t1: Seq<char>, p1: int, o1: int, t2: Seq<char>, p2: int, o2: int)
    requires
        spec_message_task_id(t1, p1, o1) == spec_message_task_id(t2, p2, o2),
    ensures
        t1 == t2,
        p1 == p2,
        o1 == o2,
{
    lemma_signed_decimal(p1, p2);
    lemma_signed_decimal(o1, o2);
    lemma_signed_decimal(p2, p1);
    lemma_signed_decimal(o2, o1);
    let (dp1, do1, dp2, do2) = (signed_decimal(p1), signed_decimal(o1), signed_decimal(p2), signed_decimal(o2));
    let tail1 = dp1 + seq![':'] + do1;
    let tail2 = dp2 + seq![':'] + do2;
    assert(spec_message_task_id(t1, p1, o1) =~= t1 + seq!['/'] + tail1) by {
        reveal_strlit("/");
        reveal_strlit(":");
    }
    assert(spec_message_task_id(t2, p2, o2) =~= t2 + seq!['/'] + tail2) by {
        reveal_strlit("/");
        reveal_strlit(":");
    }
    assert forall|i: int| 0 <= i < tail1.len() implies #[trigger] tail1[i] != '/' by {
        if i < dp1.len() {
            assert(tail1[i] == dp1[i]);
            assert(is_digit(dp1[i]) || dp1[i] == '-');
        } else if i > dp1.len() {
            assert(tail1[i] == do1[i - dp1.len() - 1]);
            assert(is_digit(do1[i - dp1.len() - 1]) || do1[i - dp1.len() - 1] == '-');
        }
    }
    assert forall|i: int| 0 <= i < tail2.len() implies #[trigger] tail2[i] != '/' by {
        if i < dp2.len() {
            assert(tail2[i] == dp2[i]);
            assert(is_digit(dp2[i]) || dp2[i] == '-');
        } else if i > dp2.len() {
            assert(tail2[i] == do2[i - dp2.len() - 1]);
            assert(is_digit(do2[i - dp2.len() - 1]) || do2[i - dp2.len() - 1] == '-');
        }
    }
    lemma_split_at_last(t1, tail1, t2, tail2, '/');
    assert forall|i: int| 0 <= i < do1.len() implies #[trigger] do1[i] != ':' by {
        assert(is_digit(do1[i]) || do1[i] == '-');
    }
    assert forall|i: int| 0 <= i < do2.len() implies #[trigger] do2[i] != ':' by {
        assert(is_digit(do2[i]) || do2[i] == '-');
    }
    lemma_split_at_last(dp1, do1, dp2, do2, ':');
}

/// The tracing context of a message task, as key and value pairs.
pub open spec fn spec_message_event_context(m: Message) -> Seq<(Seq<char>, Seq<char>)> {
    seq![
        ("event_type"@, "message"@),
        ("topic"@, m.spec_topic()),
        ("partition"@, signed_decimal(m.spec_partition() as int)),
        ("key"@, m.spec_key()),
        ("offset"@, signed_decimal(m.spec_offset() as int)),
    ]
}

/// Describes a message task for tracing: its event type, topic, partition,
/// key and offset.
pub fn message_event_context(message: &Message) -> (r: Vec<(String, String)>)
    ensures
        r@.map_values(|p: (String, String)| (p.0@, p.1@)) == spec_message_event_context(*message),
{
    let mut v: Vec<(String, String)> = Vec::new();
    v.push((String::from_str("event_type"), String::from_str("message")));
    v.push((String::from_str("topic"), String::from_str(message.topic())));
    v.push((String::from_str("partition"), format_signed(message.partition() as i128)));
    v.push((String::from_str("key"), String::from_str(message.key())));
    v.push((String::from_str("offset"), format_signed(message.offset() as i128)));
    assert(v@.map_values(|p: (String, String)| (p.0@, p.1@)) =~= spec_message_event_context(*message));
    v
}

/// The task id of a timer firing: `timer/key/time`, where `time_text` is
/// how the runtime writes the timer's time.
pub open spec fn spec_timer_task_id(key: Seq<char>, time_text: Seq<char>) -> Seq<char> {
    "timer/"@ + key + "/"@ + time_text
}

/// Names the task that handles a timer firing.
pub fn timer_task_id(timer: &Timer, time_text: &str) -> (r: String)
    ensures
        r@ == spec_timer_task_id(timer.spec_key(), time_text@),
{
    let mut s = join3("timer/", timer.key(), "/");
    s.append(time_text);
    s
}

/// The tracing context of a timer task, as key and value pairs.
pub open spec fn spec_timer_event_context(key: Seq<char>, time_text: Seq<char>) -> Seq<(Seq<char>, Seq<char>)> {
    seq![("event_type"@, "timer"@), ("key"@, key), ("time"@, time_text)]
}

/// Describes a timer task for tracing: its event type, key and time.
pub fn timer_event_context(timer: &Timer, time_text: &str) -> (r: Vec<(String, String)>)
    ensures
        r@.map_values(|p: (String, String)| (p.0@, p.1@)) == spec_timer_event_context(timer.spec_key(), time_text@),
{
    let mut v: Vec<(String, String)> = Vec::new();
    v.push((String::from_str("event_type"), String::from_str("timer")));
    v.push((String::from_str("key"), String::from_str(timer.key())));
    v.push((String::from_str("time"), String::from_str(time_text)));
    assert(v@.map_values(|p: (String, String)| (p.0@, p.1@)) =~= spec_timer_event_context(timer.spec_key(), time_text@));
    v
}

/// The kind of a timer.
#[derive(Debug, Clone, Copy, PartialEq, Eq, Structural)]
pub enum TimerType {
    /// A timer that the application scheduled.
    Application,
    /// A timer that the runtime's middleware uses internally.
    Internal,
}

/// Only application timers reach the Ruby handler; internal timers are
/// handled by middleware.
pub fn dispatches_timer(timer_type: TimerType) -> (r: bool)
    ensures
        r == (timer_type == TimerType::Application),
{
    timer_type == TimerType::Application
}

// ---------------------------------------------------------------------------
// Handler validation
// ---------------------------------------------------------------------------

/// The methods every handler must implement, in the order they are checked.
pub open spec fn handler_method(i: int) -> Seq<char> {
    if i == 0 {
        "on_message"@
    } else if i == 1 {
        "on_excise"@
    } else {
        "on_timer"@
    }
}

/// The number of handler methods.
pub const HANDLER_METHOD_COUNT: usize = 3;

/// The name of handler method `i`, in check order.
pub fn handler_method_name(i: usize) -> (r: &'static str)
    requires
        i < HANDLER_METHOD_COUNT,
    ensures
        r@ == handler_method(i as int),
{
    if i == 0 {
        "on_message"
    } else if i == 1 {
        "on_excise"
    } else {
        "on_timer"
    }
}

/// The next question about a handler object, or the outcome.
#[derive(Debug)]
pub enum HandlerCheck {
    /// Ask whether the handler responds to method `i`.
    AskResponds(usize),
    /// Ask whether method `i` is the one `Prosody::EventHandler` defines,
    /// that is, not overridden.
    AskInherited(usize),
    /// The handler implements every method.
    Valid,
    /// The handler lacks a method; raise `ArgumentError` with this message.
    Invalid(String),
}

/// The message for a handler that lacks method `i`.
pub open spec fn missing_method_message(i: int) -> Seq<char> {
    "handler must implement #"@ + handler_method(i)
}

/// The first question.
pub fn handler_check_start() -> (r: HandlerCheck)
    ensures
        r == HandlerCheck::AskResponds(0),
{
    HandlerCheck::AskResponds(0)
}

/// The step after answering one question.
pub open spec fn spec_handler_check_next(asked: HandlerCheck, answer: bool) -> Option<HandlerCheck> {
    match asked {
        HandlerCheck::AskResponds(i) => if i >= 3 {
            None
        } else if answer {
            Some(HandlerCheck::AskInherited(i))
        } else {
            None
        },
        HandlerCheck::AskInherited(i) => if i >= 3 {
            None
        } else if answer {
            None
        } else if i + 1 < 3 {
            Some(HandlerCheck::AskResponds((i + 1) as usize))
        } else {
            Some(HandlerCheck::Valid)
        },
        _ => None,
    }
}

/// Decides the next step of checking a handler object: a method it does not
/// respond to, or one it inherits without overriding, makes it invalid;
/// otherwise the checks move on to the next method, and after the last to
/// the outcome that it is valid.
pub fn handler_check_next(asked: &HandlerCheck, answer: bool) -> (r: HandlerCheck)
    requires
        (match asked {
            HandlerCheck::AskResponds(i) => i < 3,
            HandlerCheck::AskInherited(i) => i < 3,
            _ => false,
        }),
    ensures
        match spec_handler_check_next(*asked, answer) {
            Some(next) => r == next,
            None => r matches HandlerCheck::Invalid(m) && m@ == missing_method_message(match asked {
                HandlerCheck::AskResponds(i) => i as int,
                HandlerCheck::AskInherited(i) => i as int,
                _ => 0,
            }),
        },
{
    match asked {
        HandlerCheck::AskResponds(i) => {
            if answer {
                HandlerCheck::AskInherited(*i)
            } else {
                HandlerCheck::Invalid(join2("handler must implement #", handler_method_name(*i)))
            }
        },
        HandlerCheck::AskInherited(i) => {
            if answer {
                HandlerCheck::Invalid(join2("handler must implement #", handler_method_name(*i)))
            } else if *i + 1 < HANDLER_METHOD_COUNT {
                HandlerCheck::AskResponds(*i + 1)
            } else {
                HandlerCheck::Valid
            }
        },
        _ => HandlerCheck::Valid,
    }
}

/// The outcome the questions reach for a handler whose answers are `responds`
/// and `inherited` (per method index), starting from the question `at`.
pub open spec fn run_handler_check(at: int, responds: spec_fn(int) -> bool, inherited: spec_fn(int) -> bool) -> Option<int>
    decreases 3 - at,
{
    if at >= 3 || at < 0 {
        None
    } else if !responds(at) || inherited(at) {
        Some(at)
    } else {
        run_handler_check(at + 1, responds, inherited)
    }
}

/// A handler is accepted exactly when it responds to and overrides every
/// handler method; otherwise the error names the first method, in check
/// order, that it lacks.
pub proof fn law_handler_accepted_iff_complete(responds: spec_fn(int) -> bool, inherited: spec_fn(int) -> bool)
    ensures
        run_handler_check(0, responds, inherited) is None <==> (forall|i: int| 0 <= i < 3 ==> #[trigger] responds(i) && !inherited(i)),
        run_handler_check(0, responds, inherited) matches Some(i) ==> 0 <= i < 3 && (!responds(i) || inherited(i))
            && (forall|j: int| 0 <= j < i ==> #[trigger] responds(j) && !inherited(j)),
{
    reveal_with_fuel(run_handler_check, 4);
    if run_handler_check(0, responds, inherited) is None {
        assert forall|i: int| 0 <= i < 3 implies #[trigger] responds(i) && !inherited(i) by {
            assert(responds(0) && !inherited(0));
            assert(responds(1) && !inherited(1));
            assert(responds(2) && !inherited(2));
        }
    }
    if run_handler_check(0, responds, inherited) is Some {
        let i = run_handler_check(0, responds, inherited)->Some_0;
        assert forall|j: int| 0 <= j < i implies #[trigger] responds(j) && !inherited(j) by {
            if j == 1 {
                assert(responds(0) && !inherited(0));
            }
        }
    }
}

/// Each step of the handler validation follows its outcome: from the question about method
/// `i`, a handler whose answers are all positive from `i` on is valid, and
/// the first negative answer is the method named in the error.
pub proof fn law_handler_check_steps_agree(i: int, responds: spec_fn(int) -> bool, inherited: spec_fn(int) -> bool)
    requires
        0 <= i < 3,
    ensures
        spec_handler_check_next(HandlerCheck::AskResponds(i as usize), responds(i)) == (if responds(i) {
            Some(HandlerCheck::AskInherited(i as usize))
        } else {
            None::<HandlerCheck>
        }),
        !responds(i) ==> run_handler_check(i, responds, inherited) == Some(i),
        responds(i) && inherited(i) ==> run_handler_check(i, responds, inherited) == Some(i),
        responds(i) && !inherited(i) ==> run_handler_check(i, responds, inherited) == run_handler_check(i + 1, responds, inherited),
{
}

/// Where the handler check ends when every question is answered from
/// `responds` and `inherited`, starting at `step`: `Some(Ok(()))` when it
/// reaches `Valid`, `Some(Err(i))` when the answer about method `i` makes it
/// reject the handler (the `Invalid` naming that method), `None` when `fuel`
/// questions do not reach an end.
pub open spec fn answer_all(step: HandlerCheck, responds: spec_fn(int) -> bool, inherited: spec_fn(int) -> bool, fuel: nat) -> Option<Result<(), int>>
    decreases fuel,
{
    if fuel == 0 {
        None
    } else {
        match step {
            HandlerCheck::Valid => Some(Ok(())),
            HandlerCheck::AskResponds(i) => match spec_handler_check_next(step, responds(i as int)) {
                None => Some(Err(i as int)),
                Some(next) => answer_all(next, responds, inherited, (fuel - 1) as nat),
            },
            HandlerCheck::AskInherited(i) => match spec_handler_check_next(step, inherited(i as int)) {
                None => Some(Err(i as int)),
                Some(next) => answer_all(next, responds, inherited, (fuel - 1) as nat),
            },
            HandlerCheck::Invalid(_) => None,
        }
    }
}

/// A handler is accepted exactly when it responds to and overrides every
/// handler method: running the check's steps from its first question over
/// any answers reaches `Valid` if each of `on_message`, `on_excise` and
/// `on_timer` is answered "responds" and "not inherited", and otherwise
/// rejects the handler naming the first method, in check order, that it
/// lacks or merely inherits.
pub proof fn law_handler_steps_accept_iff_complete(responds: spec_fn(int) -> bool, inherited: spec_fn(int) -> bool)
    ensures
        (forall|i: int| 0 <= i < 3 ==> #[trigger] responds(i) && !inherited(i))
            ==> answer_all(HandlerCheck::AskResponds(0), responds, inherited, 7) == Some(Ok::<(), int>(())),
        !(forall|i: int| 0 <= i < 3 ==> #[trigger] responds(i) && !inherited(i))
            ==> (answer_all(HandlerCheck::AskResponds(0), responds, inherited, 7) matches Some(Err(i)) && {
                &&& 0 <= i < 3
                &&& !responds(i) || inherited(i)
                &&& forall|j: int| 0 <= j < i ==> #[trigger] responds(j) && !inherited(j)
            }),
{
    reveal_with_fuel(answer_all, 8);
    if !(forall|i: int| 0 <= i < 3 ==> #[trigger] responds(i) && !inherited(i)) {
        assert(!(responds(0) && !inherited(0)) || !(responds(1) && !inherited(1)) || !(responds(2) && !inherited(2)));
        if !(responds(0) && !inherited(0)) {
        } else if !(responds(1) && !inherited(1)) {
            assert forall|j: int| 0 <= j < 1 implies #[trigger] responds(j) && !inherited(j) by {
                assert(j == 0);
            }
        } else {
            assert forall|j: int| 0 <= j < 2 implies #[trigger] responds(j) && !inherited(j) by {
                assert(j == 0 || j == 1);
            }
        }
    } else {
        assert(responds(0) && !inherited(0));
        assert(responds(1) && !inherited(1));
        assert(responds(2) && !inherited(2));
    }
}

// ---------------------------------------------------------------------------
// Results of tasks and requests
// ---------------------------------------------------------------------------

/// What a finished Ruby task reports: success, or the error of its
/// exception, classified by its `permanent?` answer, with its full message.
pub fn processing_result(is_success: bool, is_permanent: bool, message: String) -> (r: Result<(), ProcessingError>)
    ensures
        is_success ==> r is Ok,
        !is_success && is_permanent ==> r == Err::<(), ProcessingError>(ProcessingError::Permanent(message)),
        !is_success && !is_permanent ==> r == Err::<(), ProcessingError>(ProcessingError::Transient(message)),
{
    if is_success {
        Ok(())
    } else if is_permanent {
        Err(ProcessingError::Permanent(message))
    } else {
        Err(ProcessingError::Transient(message))
    }
}

/// What awaiting a task's result gives: the result that was sent, or
/// [`ProcessingError::Closed`] when the channel closed without one.
pub fn received_result(delivered: Option<Result<(), ProcessingError>>) -> (r: Result<(), ProcessingError>)
    ensures
        r == (match delivered {
            Some(x) => x,
            None => Err(ProcessingError::Closed),
        }),
{
    match delivered {
        Some(x) => x,
        None => Err(ProcessingError::Closed),
    }
}

/// How waiting for a dispatched event ended.
#[derive(Debug)]
pub enum EventRace {
    /// The task finished first, with this result.
    Finished(Result<(), ProcessingError>),
    /// The event was cancelled first; cancelling the task gave `cancel`, and
    /// when it succeeded the task then finished with `result`.
    Cancelled { cancel: Result<(), SchedulerError>, result: Option<Result<(), ProcessingError>> },
}

/// The outcome of handling one event: a failed cancellation is a scheduler
/// error; otherwise the task's own result, where an error is a processing
/// error, and a successful cancellation with no result to report is a
/// success.
pub fn event_outcome(race: EventRace) -> (r: Result<(), RubyHandlerError>)
    ensures
        match race {
            EventRace::Finished(Ok(())) => r is Ok,
            EventRace::Finished(Err(e)) => r == Err::<(), RubyHandlerError>(RubyHandlerError::Processing(e)),
            EventRace::Cancelled { cancel: Err(e), .. } => r == Err::<(), RubyHandlerError>(RubyHandlerError::Scheduler(e)),
            EventRace::Cancelled { cancel: Ok(()), result: Some(Ok(())) } => r is Ok,
            EventRace::Cancelled { cancel: Ok(()), result: Some(Err(e)) } => r == Err::<(), RubyHandlerError>(RubyHandlerError::Processing(e)),
            EventRace::Cancelled { cancel: Ok(()), result: None } => r is Ok,
        },
{
    match race {
        EventRace::Finished(result) => match result {
            Ok(()) => Ok(()),
            Err(e) => Err(RubyHandlerError::Processing(e)),
        },
        EventRace::Cancelled { cancel, result } => match cancel {
            Err(e) => Err(RubyHandlerError::Scheduler(e)),
            Ok(()) => match result {
                Some(Ok(())) => Ok(()),
                Some(Err(e)) => Err(RubyHandlerError::Processing(e)),
                None => Ok(()),
            },
        },
    }
}

/// Why a subsystem gave no successful response to a request.
#[derive(Debug)]
pub enum ResponseError {
    /// The handler failed with this message.
    Handler { message: String },
    /// No response arrived before the deadline.
    Timeout,
    /// The response had a format the requester does not read.
    FormatMismatch,
    /// The response could not be decoded.
    Malformed,
}

/// The Ruby error class (under `Prosody`) a response error becomes, and the
/// message it is built with, if any.
pub fn response_error(error: ResponseError) -> (r: (&'static str, Option<String>))
    ensures
        match error {
            ResponseError::Handler { message } => r.0@ == "HandlerError"@ && r.1 == Some(message),
            ResponseError::Timeout => r.0@ == "Timeout"@ && r.1 is None,
            ResponseError::FormatMismatch => r.0@ == "FormatMismatch"@ && r.1 is None,
            ResponseError::Malformed => r.0@ == "MalformedResponse"@ && r.1 is None,
        },
{
    match error {
        ResponseError::Handler { message } => ("HandlerError", Some(message)),
        ResponseError::Timeout => ("Timeout", None),
        ResponseError::FormatMismatch => ("FormatMismatch", None),
        ResponseError::Malformed => ("MalformedResponse", None),
    }
}

/// The state of a client's consumer.
#[derive(Debug)]
pub enum ConsumerState {
    Shutdown,
    Unconfigured,
    ConfigurationFailed(String),
    Configured,
    Running,
}

/// The symbol that names a consumer state, or the error a failed
/// configuration raises.
pub fn consumer_state_name(state: &ConsumerState) -> (r: Result<&'static str, String>)
    ensures
        match state {
            ConsumerState::Shutdown => r matches Ok(s) && s@ == "shut_down"@,
            ConsumerState::Unconfigured => r matches Ok(s) && s@ == "unconfigured"@,
            ConsumerState::ConfigurationFailed(e) => r matches Err(m) && m@ == "consumer configuration failed: "@ + e@,
            ConsumerState::Configured => r matches Ok(s) && s@ == "configured"@,
            ConsumerState::Running => r matches Ok(s) && s@ == "running"@,
        },
{
    match state {
        ConsumerState::Shutdown => Ok("shut_down"),
        ConsumerState::Unconfigured => Ok("unconfigured"),
        ConsumerState::ConfigurationFailed(e) => Err(join2("consumer configuration failed: ", e.as_str())),
        ConsumerState::Configured => Ok("configured"),
        ConsumerState::Running => Ok("running"),
    }
}

/// A client is usable only in the process that created it.
pub fn check_fork(current_pid: u32, creator_pid: u32) -> (r: Result<(), String>)
    ensures
        current_pid == creator_pid <==> r is Ok,
        r matches Err(m) ==> m@ == "Prosody::Client cannot be used after fork. Create a new client in the child process."@,
{
    if current_pid != creator_pid {
        Err(String::from_str("Prosody::Client cannot be used after fork. Create a new client in the child process."))
    } else {
        Ok(())
    }
}

} // verus!
