//! Errors of the native layer and how each is classified for retry.

use crate::text::join2;
use vstd::prelude::*;

verus! {

/// How the consumer treats a failed event.
#[derive(Debug, Clone, Copy, PartialEq, Eq, Structural)]
pub enum ErrorCategory {
    /// Retry the event.
    Transient,
    /// Do not retry the event.
    Permanent,
}

/// A function run outside the Ruby VM lock panicked.
#[derive(Debug, Clone, Copy, PartialEq, Eq, Structural)]
pub enum GvlError {
    Panicked,
}

impl GvlError {
    /// The error's message.
    pub fn message(&self) -> (r: String)
        ensures
            r@ == "panicked while attempting to call function running outside of the GVL"@,
    {
        String::from_str("panicked while attempting to call function running outside of the GVL")
    }
}

/// Errors of the Ruby bridge.
#[derive(Debug)]
pub enum BridgeError {
    /// Polling outside the VM lock failed.
    Gvl(GvlError),
    /// An async task could not be created.
    TaskCreate(String),
    /// An async task was dropped before it completed.
    TaskDropped,
    /// The Ruby runtime cancelled the command.
    Cancelled,
    /// The bridge has shut down.
    Shutdown,
}

impl BridgeError {
    /// The error's message.
    pub open spec fn spec_message(&self) -> Seq<char> {
        match self {
            BridgeError::Gvl(_) => "an error occurred while polling: "@
                + "panicked while attempting to call function running outside of the GVL"@,
            BridgeError::TaskCreate(m) => "failed to create async task: "@ + m@,
            BridgeError::TaskDropped => "async task was dropped before completion"@,
            BridgeError::Cancelled => "command was cancelled by Ruby runtime"@,
            BridgeError::Shutdown => "Ruby bridge was shutdown"@,
        }
    }

    /// The error's message.
    pub fn message(&self) -> (r: String)
        ensures
            r@ == self.spec_message(),
    {
        match self {
            BridgeError::Gvl(e) => {
                let inner = e.message();
                join2("an error occurred while polling: ", inner.as_str())
            },
            BridgeError::TaskCreate(m) => join2("failed to create async task: ", m.as_str()),
            BridgeError::TaskDropped => String::from_str("async task was dropped before completion"),
            BridgeError::Cancelled => String::from_str("command was cancelled by Ruby runtime"),
            BridgeError::Shutdown => String::from_str("Ruby bridge was shutdown"),
        }
    }

    /// Whether the bridge has shut down, which ends its poll loop.
    pub fn is_shutdown(&self) -> (r: bool)
        ensures
            r == (*self is Shutdown),
    {
        matches!(self, BridgeError::Shutdown)
    }
}

/// Errors of the task scheduler.
#[derive(Debug)]
pub enum SchedulerError {
    /// The task could not be submitted.
    Submit(String),
    /// The bridge failed.
    Bridge(BridgeError),
    /// The task could not be cancelled.
    Cancel(String),
    /// The processor could not be shut down.
    Shutdown(String),
}

impl SchedulerError {
    /// The error's message.
    pub open spec fn spec_message(&self) -> Seq<char> {
        match self {
            SchedulerError::Submit(m) => "failed to submit task: "@ + m@,
            SchedulerError::Bridge(e) => e.spec_message(),
            SchedulerError::Cancel(m) => "failed to cancel task: "@ + m@,
            SchedulerError::Shutdown(m) => "failed to shutdown processor: "@ + m@,
        }
    }

    /// The error's message.
    pub fn message(&self) -> (r: String)
        ensures
            r@ == self.spec_message(),
    {
        match self {
            SchedulerError::Submit(m) => join2("failed to submit task: ", m.as_str()),
            SchedulerError::Bridge(e) => e.message(),
            SchedulerError::Cancel(m) => join2("failed to cancel task: ", m.as_str()),
            SchedulerError::Shutdown(m) => join2("failed to shutdown processor: ", m.as_str()),
        }
    }
}

/// The outcome of a Ruby task that did not succeed.
#[derive(Debug, Clone, PartialEq, Eq)]
pub enum ProcessingError {
    /// The handler raised an error that may succeed on retry.
    Transient(String),
    /// The handler raised an error marked permanent.
    Permanent(String),
    /// The result channel closed before a result arrived.
    Closed,
}

impl ProcessingError {
    /// The error's message.
    pub open spec fn spec_message(&self) -> Seq<char> {
        match self {
            ProcessingError::Transient(m) => "transient error: "@ + m@,
            ProcessingError::Permanent(m) => "permanent error: "@ + m@,
            ProcessingError::Closed => "result channel has been closed"@,
        }
    }

    /// The error's message.
    pub fn message(&self) -> (r: String)
        ensures
            r@ == self.spec_message(),
    {
        match self {
            ProcessingError::Transient(m) => join2("transient error: ", m.as_str()),
            ProcessingError::Permanent(m) => join2("permanent error: ", m.as_str()),
            ProcessingError::Closed => String::from_str("result channel has been closed"),
        }
    }

    /// A closed channel is retried like a transient error; only a permanent
    /// error is not.
    pub fn classify_error(&self) -> (r: ErrorCategory)
        ensures
            r == (if *self is Permanent { ErrorCategory::Permanent } else { ErrorCategory::Transient }),
    {
        match self {
            ProcessingError::Transient(_) | ProcessingError::Closed => ErrorCategory::Transient,
            ProcessingError::Permanent(_) => ErrorCategory::Permanent,
        }
    }
}

/// Errors that can occur when handling Kafka events in Ruby.
#[derive(Debug)]
pub enum RubyHandlerError {
    /// Error from the task scheduler.
    Scheduler(SchedulerError),
    /// Error communicating with the Ruby runtime.
    Bridge(BridgeError),
    /// Error from the Ruby handler code.
    Processing(ProcessingError),
}

impl RubyHandlerError {
    /// The error's message: that of the error it wraps.
    pub open spec fn spec_message(&self) -> Seq<char> {
        match self {
            RubyHandlerError::Scheduler(e) => e.spec_message(),
            RubyHandlerError::Bridge(e) => e.spec_message(),
            RubyHandlerError::Processing(e) => e.spec_message(),
        }
    }

    /// The error's message.
    pub fn message(&self) -> (r: String)
        ensures
            r@ == self.spec_message(),
    {
        match self {
            RubyHandlerError::Scheduler(e) => e.message(),
            RubyHandlerError::Bridge(e) => e.message(),
            RubyHandlerError::Processing(e) => e.message(),
        }
    }

    /// Scheduler and bridge errors are transient (retryable); a processing
    /// error keeps its own classification.
    pub fn classify_error(&self) -> (r: ErrorCategory)
        ensures
            r == (match self {
                RubyHandlerError::Processing(ProcessingError::Permanent(_)) => ErrorCategory::Permanent,
                _ => ErrorCategory::Transient,
            }),
    {
        match self {
            RubyHandlerError::Scheduler(_) | RubyHandlerError::Bridge(_) => ErrorCategory::Transient,
            RubyHandlerError::Processing(error) => error.classify_error(),
        }
    }
}

// ---------------------------------------------------------------------------
// First line of a message
// ---------------------------------------------------------------------------

/// The index of the first `'\n'` at or after `from`, or the length.
pub open spec fn newline_from(s: Seq<char>, from: int) -> int
    decreases s.len() - from,
{
    if from >= s.len() {
        s.len() as int
    } else if s[from] == '\n' {
        from
    } else {
        newline_from(s, from + 1)
    }
}

/// The first line of a text, as `str::lines` gives it: everything before the
/// first `'\n'`, without a `'\r'` that directly precedes it; the empty text
/// has no line and gives the empty text.
pub open spec fn first_line_of(s: Seq<char>) -> Seq<char> {
    let end = newline_from(s, 0);
    if end < s.len() && end > 0 && s[end - 1] == '\r' {
        s.take(end - 1)
    } else {
        s.take(end)
    }
}

proof fn lemma_newline_from_bounds(s: Seq<char>, from: int)
    requires
        0 <= from <= s.len(),
    ensures
        from <= newline_from(s, from) <= s.len(),
        newline_from(s, from) < s.len() ==> s[newline_from(s, from)] == '\n',
        forall|k: int| from <= k < newline_from(s, from) ==> s[k] != '\n',
    decreases s.len() - from,
{
    if from < s.len() && s[from] != '\n' {
        lemma_newline_from_bounds(s, from + 1);
    }
}

/// The first line is a prefix of the text and holds no line break: a span
/// status built from it is a single line.
pub proof fn law_first_line_is_a_single_line_prefix(s: Seq<char>)
    ensures
        first_line_of(s).len() <= s.len(),
        first_line_of(s) == s.take(first_line_of(s).len() as int),
        forall|i: int| 0 <= i < first_line_of(s).len() ==> #[trigger] first_line_of(s)[i] != '\n',
{
    lemma_newline_from_bounds(s, 0);
    let l = first_line_of(s);
    assert(l =~= s.take(l.len() as int));
    assert forall|i: int| 0 <= i < l.len() implies #[trigger] l[i] != '\n' by {
        assert(l[i] == s[i]);
    }
}

/// The first line of an error's message, as a span status shows it.
pub fn first_line(s: &str) -> (r: String)
    ensures
        r@ == first_line_of(s@),
{
    let n = s.unicode_len();
    let mut i: usize = 0;
    while i < n && s.get_char(i) != '\n'
        invariant
            n == s@.len(),
            i <= n,
            newline_from(s@, 0) == newline_from(s@, i as int),
        decreases n - i,
    {
        i = i + 1;
    }
    proof {
        lemma_newline_from_bounds(s@, i as int);
    }
    let end = if i < n && i > 0 && s.get_char(i - 1) == '\r' {
        i - 1
    } else {
        i
    };
    let line = s.substring_char(0, end);
    proof {
        assert(s@.subrange(0, end as int) =~= s@.take(end as int));
    }
    String::from_str(line)
}

} // verus!
