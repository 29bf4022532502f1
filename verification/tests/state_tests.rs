use prosody::state::{
    is_transient, json_write_item, message_shape_error, state_error, StateErrorCategory,
    StateErrorClass,
};
use serde_json::Value;

#[test]
fn store_errors_keep_their_category() {
    let e = state_error(StateErrorCategory::Permanent, "schema mismatch".into());
    assert_eq!(e.class, StateErrorClass::Permanent);
    assert_eq!(e.message, "schema mismatch");
    let e = state_error(StateErrorCategory::Transient, "timeout".into());
    assert_eq!(e.class, StateErrorClass::Transient);
    assert!(is_transient(StateErrorClass::Transient));
    assert!(is_transient(StateErrorClass::NullValue));
    assert!(!is_transient(StateErrorClass::Permanent));
}

#[test]
fn json_null_is_not_storable() {
    let e = json_write_item(Ok(Value::Null), "; use delete to remove a value").unwrap_err();
    assert_eq!(e.class, StateErrorClass::NullValue);
    assert_eq!(e.message, "JSON null is not a storable value; use delete to remove a value");
}

#[test]
fn json_values_pass_through() {
    let mut object = serde_json::Map::new();
    object.insert("sku".to_string(), Value::String("book".to_string()));
    object.insert("qty".to_string(), Value::from(2));
    let v = Value::Object(object);
    assert_eq!(json_write_item(Ok(v.clone()), "").unwrap(), v);
    assert_eq!(json_write_item(Ok(Value::Bool(false)), "").unwrap(), Value::Bool(false));
}

#[test]
fn unrepresentable_values_are_transient() {
    let e = json_write_item(Err("NaN is not JSON".into()), "").unwrap_err();
    assert_eq!(e.class, StateErrorClass::Transient);
    assert_eq!(e.message, "value is not representable as JSON: NaN is not JSON");
}

#[test]
fn wrong_item_shape() {
    let e = message_shape_error("; pass a Prosody::Message");
    assert_eq!(e.class, StateErrorClass::Transient);
    assert_eq!(e.message, "expected a Prosody::Message; pass a Prosody::Message");
}
