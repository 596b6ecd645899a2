use juno::models::{Number, Value};

#[test]
fn number_accessors_pick_their_variant() {
    let signed = Number::SignedInteger(-4);
    let unsigned = Number::UnsignedInteger(9);
    let decimal = Number::Decimal(1.5f64.to_bits());
    assert!(signed.is_i64() && !signed.is_u64() && !signed.is_f64());
    assert!(unsigned.is_u64() && !unsigned.is_i64());
    assert!(decimal.is_f64());
    assert_eq!(signed.as_i64(), Some(-4));
    assert_eq!(unsigned.as_i64(), None);
    assert_eq!(unsigned.as_u64(), Some(9));
    assert_eq!(decimal.as_u64(), None);
    assert_eq!(Number::SignedInteger(6).to_u64(), Some(6));
    assert_eq!(signed.to_u64(), None);
    assert_eq!(decimal.to_u64(), None);
}

#[test]
fn value_accessors_pick_their_variant() {
    let values = vec![
        Value::Null,
        Value::Bool(true),
        Value::Number(Number::UnsignedInteger(1)),
        Value::String("s".to_string()),
        Value::Array(vec![Value::Null]),
        Value::Object(vec![("k".to_string(), Value::Bool(false))]),
    ];
    for (i, v) in values.iter().enumerate() {
        assert_eq!(v.is_null(), i == 0);
        assert_eq!(v.as_null().is_some(), i == 0);
        assert_eq!(v.is_bool(), i == 1);
        assert_eq!(v.is_number(), i == 2);
        assert_eq!(v.is_string(), i == 3);
        assert_eq!(v.is_array(), i == 4);
        assert_eq!(v.is_object(), i == 5);
    }
    assert_eq!(values[1].as_bool(), Some(&true));
    assert_eq!(values[2].as_number(), Some(&Number::UnsignedInteger(1)));
    assert_eq!(values[3].as_string().map(|s| s.as_str()), Some("s"));
    assert_eq!(values[4].as_array().map(|a| a.len()), Some(1));
    assert_eq!(values[5].as_object().map(|o| o[0].0.as_str()), Some("k"));
    assert_eq!(values[0].as_bool(), None);
    assert_eq!(values[2].to_u64(), Some(1));
    assert_eq!(values[3].to_u64(), None);
}
