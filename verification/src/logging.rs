//! Formatting of tracing events for the Ruby logger.
//!
//! A [`Visitor`] collects an event's fields as `key=value` pairs separated by
//! spaces, starting with the event's module path and line; the `message`
//! field is kept apart and leads the rendered line.

use crate::text::{decimal, format_signed, format_unsigned, join2, signed_decimal};
use vstd::prelude::*;

verus! {

/// The level of a tracing event.
#[derive(Debug, Clone, Copy, PartialEq, Eq, Structural)]
pub enum LogLevel {
    Error,
    Warn,
    Info,
    Debug,
    Trace,
}

/// The Ruby `Logger` method an event of this level is logged with; trace
/// events go to `debug`.
pub fn log_method(level: LogLevel) -> (r: &'static str)
    ensures
        r@ == (match level {
            LogLevel::Error => "error"@,
            LogLevel::Warn => "warn"@,
            LogLevel::Info => "info"@,
            LogLevel::Debug => "debug"@,
            LogLevel::Trace => "debug"@,
        }),
{
    match level {
        LogLevel::Error => "error",
        LogLevel::Warn => "warn",
        LogLevel::Info => "info",
        LogLevel::Debug | LogLevel::Trace => "debug",
    }
}

/// The text of `key=value` pairs, separated by single spaces.
pub open spec fn fields_text(fields: Seq<(Seq<char>, Seq<char>)>) -> Seq<char>
    decreases fields.len(),
{
    if fields.len() == 0 {
        Seq::empty()
    } else {
        let prefix = fields_text(fields.drop_last());
        let kv = fields.last().0 + "="@ + fields.last().1;
        if fields.len() == 1 {
            kv
        } else {
            prefix + " "@ + kv
        }
    }
}

/// The rendered line: the message, a space and the fields, or the fields
/// alone when there is no message.
pub open spec fn line_text(message: Option<Seq<char>>, fields: Seq<(Seq<char>, Seq<char>)>) -> Seq<char> {
    match message {
        None => fields_text(fields),
        Some(m) => m + " "@ + fields_text(fields),
    }
}

/// Collects the fields of one tracing event.
pub struct Visitor {
    metadata: String,
    maybe_message: Option<String>,
    fields: Ghost<Seq<(Seq<char>, Seq<char>)>>,
}

impl Visitor {
    /// The fields recorded so far, in order.
    pub closed spec fn fields(&self) -> Seq<(Seq<char>, Seq<char>)> {
        self.fields@
    }

    /// The event's message, when it has one.
    pub closed spec fn message(&self) -> Option<Seq<char>> {
        match self.maybe_message {
            Some(m) => Some(m@),
            None => None,
        }
    }

    /// The metadata text matches the recorded fields.
    #[verifier::type_invariant]
    closed spec fn wf(&self) -> bool {
        self.metadata@ == fields_text(self.fields@)
    }

    /// A visitor for an event from this module path and source line.
    pub fn new(module_name: Option<&str>, line: Option<u32>) -> (r: Self)
        ensures
            r.message() is None,
            r.fields() == (match (module_name, line) {
                (Some(m), Some(l)) => seq![("module"@, m@), ("line"@, decimal(l as nat))],
                (Some(m), None) => seq![("module"@, m@)],
                (None, Some(l)) => seq![("line"@, decimal(l as nat))],
                (None, None) => Seq::empty(),
            }),
    {
        let mut visitor = Visitor { metadata: String::new(), maybe_message: None, fields: Ghost(Seq::empty()) };
        if let Some(module) = module_name {
            visitor.push_kv("module", module);
        }
        if let Some(line) = line {
            let v = format_unsigned(line as u128);
            visitor.push_kv("line", v.as_str());
        }
        proof {
            match (module_name, line) {
                (Some(m), Some(l)) => {
                    assert(visitor.fields@ =~= seq![("module"@, m@), ("line"@, decimal(l as nat))]);
                },
                (Some(m), None) => {
                    assert(visitor.fields@ =~= seq![("module"@, m@)]);
                },
                (None, Some(l)) => {
                    assert(visitor.fields@ =~= seq![("line"@, decimal(l as nat))]);
                },
                (None, None) => {},
            }
        }
        visitor
    }

    /// Records a `key=value` pair after the fields recorded so far.
    pub fn push_kv(&mut self, key: &str, value: &str)
        ensures
            final(self).fields() == old(self).fields().push((key@, value@)),
            final(self).message() == old(self).message(),
    {
        proof {
            reveal_strlit("=");
            reveal_strlit(" ");
        }
        proof {
            use_type_invariant(&*self);
        }
        let ghost old_fields = self.fields@;
        let mut metadata = self.metadata.clone();
        let empty = metadata.as_str().is_empty();
        proof {
            if old_fields.len() > 0 {
                lemma_fields_text_nonempty(old_fields);
            } else {
                assert(fields_text(old_fields) =~= Seq::<char>::empty());
            }
        }
        if !empty {
            metadata.append(" ");
        }
        metadata.append(key);
        metadata.append("=");
        metadata.append(value);
        let ghost fields = old_fields.push((key@, value@));
        proof {
            assert(fields.drop_last() =~= old_fields);
            if old_fields.len() == 0 {
                assert(metadata@ =~= key@ + "="@ + value@);
            } else {
                assert(metadata@ =~= fields_text(old_fields) + " "@ + (key@ + "="@ + value@));
            }
        }
        let maybe_message = crate::text::copy_opt_string(&self.maybe_message);
        *self = Visitor { metadata, maybe_message, fields: Ghost(fields) };
    }

    /// Records a text field.
    pub fn record_str(&mut self, field: &str, value: &str)
        ensures
            final(self).fields() == old(self).fields().push((field@, value@)),
            final(self).message() == old(self).message(),
    {
        self.push_kv(field, value);
    }

    /// Records a signed integer field in decimal.
    pub fn record_i64(&mut self, field: &str, value: i64)
        ensures
            final(self).fields() == old(self).fields().push((field@, signed_decimal(value as int))),
            final(self).message() == old(self).message(),
    {
        let s = format_signed(value as i128);
        self.push_kv(field, s.as_str());
    }

    /// Records an unsigned integer field in decimal.
    pub fn record_u64(&mut self, field: &str, value: u64)
        ensures
            final(self).fields() == old(self).fields().push((field@, decimal(value as nat))),
            final(self).message() == old(self).message(),
    {
        let s = format_unsigned(value as u128);
        self.push_kv(field, s.as_str());
    }

    /// Records a 128-bit signed integer field in decimal.
    pub fn record_i128(&mut self, field: &str, value: i128)
        ensures
            final(self).fields() == old(self).fields().push((field@, signed_decimal(value as int))),
            final(self).message() == old(self).message(),
    {
        let s = format_signed(value);
        self.push_kv(field, s.as_str());
    }

    /// Records a 128-bit unsigned integer field in decimal.
    pub fn record_u128(&mut self, field: &str, value: u128)
        ensures
            final(self).fields() == old(self).fields().push((field@, decimal(value as nat))),
            final(self).message() == old(self).message(),
    {
        let s = format_unsigned(value);
        self.push_kv(field, s.as_str());
    }

    /// Records a boolean field as `true` or `false`.
    pub fn record_bool(&mut self, field: &str, value: bool)
        ensures
            final(self).fields() == old(self).fields().push((field@, if value { "true"@ } else { "false"@ })),
            final(self).message() == old(self).message(),
    {
        if value {
            self.push_kv(field, "true");
        } else {
            self.push_kv(field, "false");
        }
    }

    /// Records a field given by its `Debug` text: the `message` field becomes
    /// the event's message, any other field a pair.
    pub fn record_debug(&mut self, field: &str, text: String)
        ensures
            field@ == "message"@ ==> final(self).message() == Some(text@) && final(self).fields() == old(self).fields(),
            field@ != "message"@ ==> final(self).message() == old(self).message()
                && final(self).fields() == old(self).fields().push((field@, text@)),
    {
        proof {
            use_type_invariant(&*self);
        }
        if crate::text::eq_str(field, "message") {
            self.maybe_message = Some(text);
        } else {
            self.push_kv(field, text.as_str());
        }
    }

    /// The line logged for the event.
    pub fn render(&self) -> (r: String)
        ensures
            r@ == line_text(self.message(), self.fields()),
    {
        proof {
            use_type_invariant(self);
        }
        match &self.maybe_message {
            None => self.metadata.clone(),
            Some(message) => {
                let mut s = join2(message.as_str(), " ");
                s.append(self.metadata.as_str());
                s
            },
        }
    }
}

proof fn lemma_fields_text_nonempty(fields: Seq<(Seq<char>, Seq<char>)>)
    requires
        fields.len() > 0,
    ensures
        fields_text(fields).len() > 0,
{
    reveal_strlit("=");
    let kv = fields.last().0 + "="@ + fields.last().1;
    assert(kv.len() > 0);
}

/// The logged line leads with the message and then lists every recorded
/// field in recording order, each as `key=value`, separated by spaces.
pub proof fn law_fields_in_recording_order(fields: Seq<(Seq<char>, Seq<char>)>, key: Seq<char>, value: Seq<char>)
    ensures
        fields.len() == 0 ==> fields_text(fields.push((key, value))) == key + "="@ + value,
        fields.len() > 0 ==> fields_text(fields.push((key, value))) == fields_text(fields) + " "@ + key + "="@ + value,
{
    let f = fields.push((key, value));
    assert(f.drop_last() =~= fields);
    if fields.len() > 0 {
        assert(fields_text(f) =~= fields_text(fields) + " "@ + key + "="@ + value);
    }
}

} // verus!
