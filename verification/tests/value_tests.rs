use linter::rows::{row_diff, row_eq, rows_contain, values_equal, Row};
use linter::value::{from_field_value, from_json_value, Json, Value};

fn assert_round_trips_to(v: Value, expected: &Value) {
    let wire = from_field_value(&v);
    let back = from_json_value(&wire).expect("a value must decode from its own wire form");
    assert!(values_equal(&back, expected));
}

#[test]
fn test_round_trip_null() {
    assert_round_trips_to(Value::Null, &Value::Null);
    let wire = from_field_value(&Value::Null);
    assert!(matches!(from_json_value(&wire), Some(Value::Null)));
}

#[test]
fn test_round_trip_boolean() {
    let wire = from_field_value(&Value::Boolean(true));
    assert!(matches!(from_json_value(&wire), Some(Value::Boolean(true))));
}

#[test]
fn test_round_trip_int64() {
    let wire = from_field_value(&Value::Int64(-5));
    assert!(matches!(from_json_value(&wire), Some(Value::Int64(-5))));
    let wire = from_field_value(&Value::Int64(7));
    assert!(matches!(from_json_value(&wire), Some(Value::Int64(7))));
}

#[test]
fn test_round_trip_uint64() {
    // A magnitude beyond the signed range survives as unsigned.
    let big = u64::MAX;
    let wire = from_field_value(&Value::Uint64(big));
    assert!(matches!(from_json_value(&wire), Some(Value::Uint64(v)) if v == big));
    // A small unsigned value decodes as the numerically equal signed value.
    let wire = from_field_value(&Value::Uint64(5));
    assert!(matches!(from_json_value(&wire), Some(Value::Int64(5))));
    assert_round_trips_to(Value::Uint64(5), &Value::Uint64(5));
}

#[test]
fn test_round_trip_float64() {
    let bits = 1.5f64.to_bits();
    let wire = from_field_value(&Value::Float64Bits(bits));
    assert!(matches!(from_json_value(&wire), Some(Value::Float64Bits(b)) if b == bits));
}

#[test]
fn test_round_trip_string() {
    let wire = from_field_value(&Value::Str(String::from("hello")));
    assert!(matches!(from_json_value(&wire), Some(Value::Str(s)) if s == "hello"));
}

#[test]
fn test_round_trip_enum_as_string() {
    // An enum crosses the wire as the string of its name.
    let wire = from_field_value(&Value::Enum(String::from("ACTIVE")));
    assert!(matches!(from_json_value(&wire), Some(Value::Str(s)) if s == "ACTIVE"));
    assert_round_trips_to(
        Value::Enum(String::from("ACTIVE")),
        &Value::Enum(String::from("ACTIVE")),
    );
}

#[test]
fn test_round_trip_list() {
    let v = Value::List(vec![
        Value::Int64(1),
        Value::Str(String::from("x")),
        Value::List(vec![Value::Boolean(false)]),
    ]);
    let expected = Value::List(vec![
        Value::Int64(1),
        Value::Str(String::from("x")),
        Value::List(vec![Value::Boolean(false)]),
    ]);
    assert_round_trips_to(v, &expected);
}

#[test]
fn test_json_object_is_not_a_value() {
    let obj = Json::Obj(vec![(String::from("a"), Json::PosInt(1))]);
    assert!(from_json_value(&obj).is_none());
    let nested = Json::Arr(vec![Json::Null, Json::Obj(vec![])]);
    assert!(from_json_value(&nested).is_none());
}

#[test]
fn test_values_equal_across_signedness_and_enums() {
    assert!(values_equal(&Value::Int64(5), &Value::Uint64(5)));
    assert!(values_equal(&Value::Uint64(5), &Value::Int64(5)));
    assert!(!values_equal(&Value::Int64(-1), &Value::Uint64(1)));
    assert!(values_equal(
        &Value::Enum(String::from("x")),
        &Value::Str(String::from("x"))
    ));
    let pos_zero = 0.0f64.to_bits();
    let neg_zero = (-0.0f64).to_bits();
    assert_ne!(pos_zero, neg_zero);
    assert!(values_equal(
        &Value::Float64Bits(pos_zero),
        &Value::Float64Bits(neg_zero)
    ));
}

#[test]
fn test_vec_of_values_are_equal() {
    let a: Vec<Value> = vec![
        Value::Int64(2),
        Value::Boolean(true),
        Value::Str(String::from("Hello")),
    ];
    let b: Vec<Value> = vec![
        Value::Boolean(true),
        Value::Int64(2),
        Value::Str(String::from("Hello")),
    ];
    assert!(b.iter().all(|item| a.iter().any(|x| values_equal(x, item))));
    assert!(a.iter().all(|item| b.iter().any(|x| values_equal(x, item))));
}

fn row(fields: Vec<(&str, Value)>) -> Row {
    Row {
        fields: fields
            .into_iter()
            .map(|(k, v)| (String::from(k), v))
            .collect(),
    }
}

#[test]
fn test_row_eq_ignores_field_order() {
    let left = row(vec![("a", Value::Int64(1)), ("b", Value::Int64(2))]);
    let right = row(vec![("b", Value::Int64(2)), ("a", Value::Int64(1))]);
    assert!(row_eq(&left, &right));
    let other = row(vec![("a", Value::Int64(1)), ("b", Value::Int64(3))]);
    assert!(!row_eq(&left, &other));
    let missing = row(vec![("a", Value::Int64(1))]);
    assert!(!row_eq(&left, &missing));
}

#[test]
fn test_rows_contain_uses_row_equality() {
    let rows = vec![row(vec![("a", Value::Uint64(1))])];
    assert!(rows_contain(&rows, &row(vec![("a", Value::Int64(1))])));
    assert!(!rows_contain(&rows, &row(vec![("a", Value::Int64(2))])));
}

#[test]
fn test_row_diff_symmetric_on_concrete_rows() {
    let a = vec![row(vec![("a", Value::Int64(1))]), row(vec![("b", Value::Int64(9))])];
    let b = vec![row(vec![("a", Value::Int64(1))]), row(vec![("c", Value::Int64(3))])];
    let forward = row_diff(&a, &b);
    let backward = row_diff(&b, &a);
    assert_eq!(forward.len(), 2);
    assert_eq!(backward.len(), 2);
    // The two directions report the same rows, whatever the order.
    assert!(forward.iter().all(|r| backward.iter().any(|s| row_eq(r, s))));
    assert!(backward.iter().all(|r| forward.iter().any(|s| row_eq(r, s))));
}
