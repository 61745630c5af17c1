use rock_runtime::custom::{
    changed_custom_keys, custom_call, custom_update_keys, CustomArgument, CustomCall, CustomError,
};
use rock_runtime::json::{values_equal, CustomValue};
use serde_json::Value;

fn s(v: &[&str]) -> Vec<String> {
    v.iter().map(|x| x.to_string()).collect()
}

fn custom(v: &Value) -> CustomValue {
    match v {
        Value::Null => CustomValue::Null,
        Value::Bool(b) => CustomValue::Bool(*b),
        Value::Number(n) => {
            if let Some(u) = n.as_u64() {
                CustomValue::PosInt(u)
            } else if let Some(i) = n.as_i64() {
                CustomValue::NegInt(i)
            } else {
                CustomValue::Float(n.as_f64().unwrap_or(0.0).to_bits())
            }
        },
        Value::String(t) => CustomValue::String(t.clone()),
        Value::Array(a) => CustomValue::Array(a.iter().map(custom).collect()),
        Value::Object(o) => CustomValue::Object(o.iter().map(|(k, v)| (k.clone(), custom(v))).collect()),
    }
}

fn fields(v: Value) -> Vec<(String, CustomValue)> {
    match custom(&v) {
        CustomValue::Object(entries) => entries,
        _ => panic!("not an object"),
    }
}

fn obj(pairs: Vec<(&str, Value)>) -> Value {
    let mut m = serde_json::Map::new();
    for (k, v) in pairs {
        m.insert(k.to_string(), v);
    }
    Value::Object(m)
}

#[test]
fn changed_keys_list_updates_then_removals() {
    let prev = s(&["a", "b", "c"]);
    let next = s(&["a", "b", "d"]);
    let same = vec![true, false, false];
    assert_eq!(changed_custom_keys(&prev, &next, &same), s(&["b", "d", "c"]));
}

#[test]
fn no_changes_no_keys() {
    let prev = s(&["a", "b"]);
    assert!(changed_custom_keys(&prev, &prev, &vec![true, true]).is_empty());
}

#[test]
fn json_update_marks_changed_new_and_dropped_keys() {
    let prev = fields(obj(vec![("hp", Value::from(10)), ("name", Value::from("orc")), ("old", Value::Bool(true))]));
    let next = fields(obj(vec![("hp", Value::from(9)), ("name", Value::from("orc")), ("speed", Value::from(1.5))]));
    let mut changed = custom_update_keys(&prev, &next);
    changed.sort();
    assert_eq!(changed, s(&["hp", "old", "speed"]));
}

#[test]
fn same_json_fields_change_nothing() {
    let v = obj(vec![("a", Value::from(vec![1, 2])), ("b", Value::Null), ("c", obj(vec![("x", Value::from(-3))]))]);
    assert!(custom_update_keys(&fields(v.clone()), &fields(v)).is_empty());
}

#[test]
fn negative_zero_equals_zero() {
    let prev = fields(obj(vec![("x", Value::from(0.0))]));
    let next = fields(obj(vec![("x", Value::from(-0.0))]));
    assert!(custom_update_keys(&prev, &next).is_empty());
}

#[test]
fn value_equality_agrees_with_serde_json() {
    let values = vec![
        Value::Null,
        Value::Bool(true),
        Value::Bool(false),
        Value::from(1),
        Value::from(-1),
        Value::from(1.0),
        Value::from(0.0),
        Value::from(-0.0),
        Value::from(2.5),
        Value::from("a"),
        Value::from("b"),
        Value::from(vec![1, 2]),
        Value::from(vec![2, 1]),
        Value::from(vec![1]),
        obj(vec![("a", Value::from(1)), ("b", Value::from(2))]),
        obj(vec![("b", Value::from(2)), ("a", Value::from(1))]),
        obj(vec![("a", Value::from(1))]),
        obj(vec![("a", Value::from(1)), ("b", Value::from(3))]),
        obj(vec![("a", Value::from(vec![obj(vec![("z", Value::from(0.0))])]))]),
        obj(vec![("a", Value::from(vec![obj(vec![("z", Value::from(-0.0))])]))]),
    ];
    for a in &values {
        for b in &values {
            assert_eq!(values_equal(&custom(a), &custom(b)), a == b, "{a} vs {b}");
        }
    }
}

#[test]
fn custom_argument_kinds() {
    assert_eq!(custom_call(CustomArgument::Table).unwrap(), CustomCall::Replace);
    assert_eq!(custom_call(CustomArgument::Function).unwrap(), CustomCall::Update);
    assert_eq!(custom_call(CustomArgument::Nil).unwrap(), CustomCall::Get);
    assert!(matches!(custom_call(CustomArgument::Other), Err(CustomError::UnknownValueType)));
}
