use sqldb_postgres::value::{
    from_native, to_native, to_native_params, NativeValue, Unrepresentable, Value,
};

fn values() -> Vec<Value> {
    vec![
        Value::Null,
        Value::Boolean(true),
        Value::Boolean(false),
        Value::Integer(0),
        Value::Integer(42),
        Value::Integer(i64::MIN),
        Value::Integer(i64::MAX),
        Value::Float(1.5f64.to_bits()),
        Value::Float((-0.0f64).to_bits()),
        Value::Float(f64::NAN.to_bits()),
        Value::Float(f64::INFINITY.to_bits()),
        Value::Text(String::new()),
        Value::Text("héllo, wörld ✓".to_string()),
        Value::Bytes(vec![]),
        Value::Bytes(vec![0, 1, 254, 255]),
        Value::Json("{\"a\":[1,2,3]}".to_string()),
        Value::Date(-1),
        Value::Date(9000),
        Value::Timestamp(i64::MIN),
        Value::Timestamp(1_700_000_000_000_000),
        Value::IntegerArray(vec![]),
        Value::IntegerArray(vec![1, -2, i64::MAX]),
        Value::TextArray(vec![]),
        Value::TextArray(vec!["a".to_string(), String::new(), "ß".to_string()]),
    ]
}

#[test]
fn every_value_survives_the_round_trip() {
    for value in values() {
        assert_eq!(from_native(&to_native(&value)), Ok(value.clone()));
    }
}

#[test]
fn values_are_bound_in_the_widest_backend_type() {
    assert_eq!(to_native(&Value::Null), NativeValue::Null);
    assert_eq!(to_native(&Value::Boolean(true)), NativeValue::Bool(true));
    assert_eq!(to_native(&Value::Integer(42)), NativeValue::Int8(42));
    assert_eq!(to_native(&Value::Float(7)), NativeValue::Float8(7));
    assert_eq!(to_native(&Value::Text("x".to_string())), NativeValue::Text("x".to_string()));
    assert_eq!(to_native(&Value::Bytes(vec![1, 2])), NativeValue::Bytea(vec![1, 2]));
    assert_eq!(to_native(&Value::Json("[]".to_string())), NativeValue::Json("[]".to_string()));
    assert_eq!(to_native(&Value::Date(3)), NativeValue::Date(3));
    assert_eq!(to_native(&Value::Timestamp(4)), NativeValue::Timestamp(4));
    assert_eq!(to_native(&Value::IntegerArray(vec![5])), NativeValue::Int8Array(vec![5]));
    assert_eq!(
        to_native(&Value::TextArray(vec!["y".to_string()])),
        NativeValue::TextArray(vec!["y".to_string()])
    );
}

#[test]
fn narrow_integers_are_widened() {
    assert_eq!(from_native(&NativeValue::Int2(i16::MIN)), Ok(Value::Integer(-32768)));
    assert_eq!(from_native(&NativeValue::Int2(i16::MAX)), Ok(Value::Integer(32767)));
    assert_eq!(from_native(&NativeValue::Int4(i32::MIN)), Ok(Value::Integer(-2147483648)));
    assert_eq!(from_native(&NativeValue::Int4(1)), Ok(Value::Integer(1)));
    assert_eq!(from_native(&NativeValue::Int8(i64::MAX)), Ok(Value::Integer(i64::MAX)));
    assert_eq!(
        from_native(&NativeValue::Int4Array(vec![i32::MIN, 0, i32::MAX])),
        Ok(Value::IntegerArray(vec![-2147483648, 0, 2147483647]))
    );
    assert_eq!(
        from_native(&NativeValue::Int8Array(vec![i64::MIN, 7])),
        Ok(Value::IntegerArray(vec![i64::MIN, 7]))
    );
}

#[test]
fn other_backend_values_keep_their_content() {
    assert_eq!(from_native(&NativeValue::Null), Ok(Value::Null));
    assert_eq!(from_native(&NativeValue::Bool(false)), Ok(Value::Boolean(false)));
    assert_eq!(
        from_native(&NativeValue::Float8(2.25f64.to_bits())),
        Ok(Value::Float(2.25f64.to_bits()))
    );
    assert_eq!(from_native(&NativeValue::Text("t".to_string())), Ok(Value::Text("t".to_string())));
    assert_eq!(from_native(&NativeValue::Bytea(vec![9, 8])), Ok(Value::Bytes(vec![9, 8])));
    assert_eq!(from_native(&NativeValue::Json("{}".to_string())), Ok(Value::Json("{}".to_string())));
    assert_eq!(from_native(&NativeValue::Date(-5)), Ok(Value::Date(-5)));
    assert_eq!(from_native(&NativeValue::Timestamp(6)), Ok(Value::Timestamp(6)));
    assert_eq!(
        from_native(&NativeValue::TextArray(vec!["a".to_string(), "b".to_string()])),
        Ok(Value::TextArray(vec!["a".to_string(), "b".to_string()]))
    );
}

#[test]
fn unsupported_type_is_told_with_its_number() {
    assert_eq!(from_native(&NativeValue::Unsupported(600)), Err(Unrepresentable { type_oid: 600 }));
    assert_eq!(from_native(&NativeValue::Unsupported(0)), Err(Unrepresentable { type_oid: 0 }));
}

#[test]
fn value_read_from_the_backend_can_be_sent_back() {
    let natives = vec![
        NativeValue::Null,
        NativeValue::Bool(true),
        NativeValue::Int2(-7),
        NativeValue::Int4(70_000),
        NativeValue::Int8(-7_000_000_000),
        NativeValue::Text("text".to_string()),
        NativeValue::Int4Array(vec![1, 2]),
    ];
    for native in natives {
        let value = from_native(&native).unwrap();
        assert_eq!(from_native(&to_native(&value)), Ok(value));
    }
}

#[test]
fn parameters_keep_their_order() {
    let params = vec![Value::Integer(1), Value::Integer(7), Value::Text("x".to_string()), Value::Null];
    assert_eq!(
        to_native_params(&params),
        vec![
            NativeValue::Int8(1),
            NativeValue::Int8(7),
            NativeValue::Text("x".to_string()),
            NativeValue::Null
        ]
    );
    assert_eq!(to_native_params(&Vec::new()), Vec::new());
}
