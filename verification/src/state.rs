//! Errors of keyed-state handles and the checks on values written to them.
//!
//! A store error's category selects the Ruby class directly; a caller mistake
//! that the native layer detects (a `nil` write, a wrong item shape, an
//! unrepresentable value) is transient, so the event retries rather than
//! being discarded.

use crate::text::join2;
use vstd::prelude::*;

verus! {

#[verifier::external_type_specification]
#[verifier::external_body]
pub struct ExJsonValue(serde_json::Value);

/// Names whether a JSON value is `null`.
pub uninterp spec fn json_null(value: serde_json::Value) -> bool;

/// `serde_json::Value::is_null`: whether the value is JSON `null`, a function
/// of the value alone.
#[verifier::external_body]
fn json_is_null(value: &serde_json::Value) -> (r: bool)
    ensures
        r == json_null(*value),
{
    value.is_null()
}

/// The Ruby class a state error is raised as.
#[derive(Debug, Clone, Copy, PartialEq, Eq, Structural)]
pub enum StateErrorClass {
    /// `Prosody::PermanentStateError`.
    Permanent,
    /// `Prosody::TransientStateError`.
    Transient,
    /// `Prosody::NullValueError`, a transient state error.
    NullValue,
}

/// The category of an error from the state store.
#[derive(Debug, Clone, Copy, PartialEq, Eq, Structural)]
pub enum StateErrorCategory {
    Permanent,
    Transient,
}

/// A state error to raise in Ruby.
#[derive(Debug)]
pub struct StateError {
    pub class: StateErrorClass,
    pub message: String,
}

/// Maps a store error to the Ruby state-error class of its category, keeping
/// its message.
pub fn state_error(category: StateErrorCategory, message: String) -> (r: StateError)
    ensures
        r.class == (match category {
            StateErrorCategory::Permanent => StateErrorClass::Permanent,
            StateErrorCategory::Transient => StateErrorClass::Transient,
        }),
        r.message == message,
{
    let class = match category {
        StateErrorCategory::Permanent => StateErrorClass::Permanent,
        StateErrorCategory::Transient => StateErrorClass::Transient,
    };
    StateError { class, message }
}

/// Whether an error class is retried: every class but the permanent one.
pub fn is_transient(class: StateErrorClass) -> (r: bool)
    ensures
        r == (class != StateErrorClass::Permanent),
{
    class != StateErrorClass::Permanent
}

/// Checks a JSON item before it is written.
///
/// `converted` is the item's conversion from Ruby: the JSON value, or the
/// message of the conversion's failure. A value with no JSON representation
/// is rejected transient; JSON `null` is rejected with a null-value error
/// whose message ends with `null_advice`, naming the deletion verb.
pub fn json_write_item(converted: Result<serde_json::Value, String>, null_advice: &str) -> (r: Result<serde_json::Value, StateError>)
    ensures
        match converted {
            Err(m) => r matches Err(e) && e.class == StateErrorClass::Transient
                && e.message@ == "value is not representable as JSON: "@ + m@,
            Ok(v) => (r is Ok <==> !json_null(v)) && match r {
                Ok(w) => w == v,
                Err(e) => e.class == StateErrorClass::NullValue
                    && e.message@ == "JSON null is not a storable value"@ + null_advice@,
            },
        },
{
    match converted {
        Err(m) => Err(StateError {
            class: StateErrorClass::Transient,
            message: join2("value is not representable as JSON: ", m.as_str()),
        }),
        Ok(value) => {
            if json_is_null(&value) {
                Err(StateError {
                    class: StateErrorClass::NullValue,
                    message: join2("JSON null is not a storable value", null_advice),
                })
            } else {
                Ok(value)
            }
        },
    }
}

/// The error for a write of something other than a `Prosody::Message` into a
/// message collection: transient, with the message ending in `shape_advice`.
pub fn message_shape_error(shape_advice: &str) -> (r: StateError)
    ensures
        r.class == StateErrorClass::Transient,
        r.message@ == "expected a Prosody::Message"@ + shape_advice@,
{
    StateError { class: StateErrorClass::Transient, message: join2("expected a Prosody::Message", shape_advice) }
}

} // verus!
