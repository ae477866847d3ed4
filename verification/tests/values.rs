//! JSON value behaviour: lookup, accessors, deep equality.

use omni_event_registry::json::JsonMember;
use omni_event_registry::json::JsonValue;
use omni_event_registry::vbox_error::VBoxError;

fn member(name: &str, value: JsonValue) -> JsonMember {
    JsonMember::new(name.to_string(), value)
}

#[test]
fn object_lookup_returns_the_first_binding() {
    let v = JsonValue::Obj(vec![
        member("a", JsonValue::Int(1)),
        member("b", JsonValue::Bool(true)),
        member("a", JsonValue::Int(2)),
    ]);
    assert_eq!(v.get("a").and_then(|f| f.as_int()), Some(1));
    assert_eq!(v.get("b").and_then(|f| f.as_bool()), Some(true));
    assert!(v.get("c").is_none());
    assert!(JsonValue::Null.get("a").is_none());
}

#[test]
fn accessors_match_the_variant() {
    assert_eq!(JsonValue::Int(7).as_int(), Some(7));
    assert_eq!(JsonValue::Bool(false).as_bool(), Some(false));
    assert_eq!(
        JsonValue::Str("x".to_string()).as_str().map(|s| s.as_str()),
        Some("x")
    );
    assert!(JsonValue::Null.as_int().is_none());
    assert!(JsonValue::Int(1).as_str().is_none());
    assert!(JsonValue::Str("t".to_string()).as_bool().is_none());
    let arr = JsonValue::Arr(vec![JsonValue::Null]);
    assert_eq!(arr.as_arr().map(|items| items.len()), Some(1));
    assert!(JsonValue::Null.as_arr().is_none());
}

#[test]
fn typed_field_accessors_check_the_member_shape() {
    let v = JsonValue::Obj(vec![
        member("s", JsonValue::Str("text".to_string())),
        member("i", JsonValue::Int(4)),
        member("b", JsonValue::Bool(true)),
    ]);
    assert_eq!(v.str_field("s"), Some("text".to_string()));
    assert_eq!(v.int_field("i"), Some(4));
    assert_eq!(v.bool_field("b"), Some(true));
    assert!(v.str_field("i").is_none());
    assert!(v.int_field("s").is_none());
    assert!(v.bool_field("missing").is_none());
}

#[test]
fn deep_equality_compares_structure() {
    let a = JsonValue::Obj(vec![
        member("xs", JsonValue::Arr(vec![JsonValue::Int(1), JsonValue::Null])),
        member("ok", JsonValue::Bool(true)),
    ]);
    let same = JsonValue::Obj(vec![
        member("xs", JsonValue::Arr(vec![JsonValue::Int(1), JsonValue::Null])),
        member("ok", JsonValue::Bool(true)),
    ]);
    assert!(a.deep_eq(&same));
    assert!(a.deep_eq(&a.duplicate()));
    let reordered = JsonValue::Obj(vec![
        member("ok", JsonValue::Bool(true)),
        member("xs", JsonValue::Arr(vec![JsonValue::Int(1), JsonValue::Null])),
    ]);
    assert!(!a.deep_eq(&reordered));
    let longer = JsonValue::Arr(vec![JsonValue::Int(1), JsonValue::Int(2)]);
    let shorter = JsonValue::Arr(vec![JsonValue::Int(1)]);
    assert!(!longer.deep_eq(&shorter));
    assert!(!JsonValue::Int(1).deep_eq(&JsonValue::Bool(true)));
}

#[test]
fn vbox_error_messages_carry_their_prefix() {
    assert_eq!(
        VBoxError::ExecutionFailed("a".to_string()).message(),
        "VBoxManage execution failed: a"
    );
    assert_eq!(
        VBoxError::MissingArgument("b".to_string()).message(),
        "Missing required argument: b"
    );
    assert_eq!(
        VBoxError::InvalidArgument("c".to_string()).message(),
        "Invalid argument value: c"
    );
    assert_eq!(
        VBoxError::NotInstalled("d".to_string()).message(),
        "VirtualBox not found or not working: d"
    );
    assert_eq!(
        VBoxError::OperationFailed("e".to_string()).message(),
        "VM operation failed: e"
    );
    assert_eq!(VBoxError::ParseError("f".to_string()).message(), "Parse error: f");
}
