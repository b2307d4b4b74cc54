use strata_mcp::{json_to_value, value_to_json, Json, McpError, Value};

fn sample_json() -> Json {
    Json::Obj(vec![
        ("title".to_string(), Json::Str("notes".to_string())),
        ("count".to_string(), Json::Int(3)),
        ("ratio".to_string(), Json::Float((0.5f64).to_bits())),
        ("flag".to_string(), Json::Bool(true)),
        ("nothing".to_string(), Json::Null),
        (
            "items".to_string(),
            Json::Arr(vec![
                Json::Int(-1),
                Json::Str("x".to_string()),
                Json::Obj(vec![("k".to_string(), Json::Int(0))]),
            ]),
        ),
    ])
}

fn sample_value() -> Value {
    Value::Obj(vec![
        ("title".to_string(), Value::Str("notes".to_string())),
        ("count".to_string(), Value::Int(3)),
        ("ratio".to_string(), Value::Float((0.5f64).to_bits())),
        ("flag".to_string(), Value::Bool(true)),
        ("nothing".to_string(), Value::Null),
        (
            "items".to_string(),
            Value::Arr(vec![
                Value::Int(-1),
                Value::Str("x".to_string()),
                Value::Obj(vec![("k".to_string(), Value::Int(0))]),
            ]),
        ),
    ])
}

#[test]
fn decode_structural() {
    assert_eq!(json_to_value(&sample_json()).unwrap(), sample_value());
}

#[test]
fn encode_structural() {
    assert_eq!(value_to_json(&sample_value()), sample_json());
}

#[test]
fn round_trip_json_to_value_and_back() {
    let j = sample_json();
    let v = json_to_value(&j).unwrap();
    assert_eq!(value_to_json(&v), j);
}

#[test]
fn round_trip_value_to_json_and_back() {
    let v = sample_value();
    let j = value_to_json(&v);
    assert_eq!(json_to_value(&j).unwrap(), v);
}

#[test]
fn round_trip_scalars() {
    for j in [
        Json::Null,
        Json::Bool(false),
        Json::Int(i64::MIN),
        Json::Int(i64::MAX),
        Json::Float((3.25f64).to_bits()),
        Json::Str(String::new()),
        Json::Arr(vec![]),
        Json::Obj(vec![]),
    ] {
        let v = json_to_value(&j).unwrap();
        assert_eq!(value_to_json(&v), j);
    }
}

#[test]
fn out_of_range_number_is_rejected() {
    let j = Json::BigNum("123456789012345678901234567890".to_string());
    match json_to_value(&j) {
        Err(McpError::InvalidArg { name, reason }) => {
            assert_eq!(name, "value");
            assert_eq!(reason, "Number out of range");
        }
        other => panic!("expected an invalid-argument error, got {:?}", other),
    }
}

#[test]
fn out_of_range_number_nested_is_rejected() {
    let j = Json::Arr(vec![Json::Int(1), Json::BigNum("1e999".to_string())]);
    assert!(json_to_value(&j).is_err());
}

#[test]
fn arg_helpers_read_typed_fields() {
    let args = vec![
        ("key".to_string(), Json::Str("a".to_string())),
        ("k".to_string(), Json::Int(5)),
        ("flag".to_string(), Json::Bool(true)),
        ("num".to_string(), Json::Float((1.5f64).to_bits())),
        ("ids".to_string(), Json::Arr(vec![Json::Int(7), Json::Int(8)])),
        (
            "texts".to_string(),
            Json::Arr(vec![Json::Str("a".to_string()), Json::Str("b".to_string())]),
        ),
    ];
    assert_eq!(strata_mcp::get_string_arg(&args, "key").unwrap(), "a");
    assert_eq!(strata_mcp::get_u64_arg(&args, "k").unwrap(), 5);
    assert_eq!(strata_mcp::get_optional_bool(&args, "flag"), Some(true));
    assert_eq!(strata_mcp::get_optional_u64(&args, "k"), Some(5));
    assert_eq!(strata_mcp::get_optional_string(&args, "missing"), None);
    assert_eq!(
        strata_mcp::get_optional_num(&args, "num"),
        Some(strata_mcp::Num::Float((1.5f64).to_bits()))
    );
    assert_eq!(strata_mcp::get_u32_array(&args, "ids").unwrap(), vec![7, 8]);
    assert_eq!(
        strata_mcp::get_string_list(&args, "texts").unwrap(),
        vec!["a".to_string(), "b".to_string()]
    );
    assert_eq!(strata_mcp::get_optional_u32_array(&args, "ids"), Some(vec![7, 8]));
}

#[test]
fn arg_helpers_report_missing_and_invalid() {
    let args = vec![("key".to_string(), Json::Int(1))];
    match strata_mcp::get_string_arg(&args, "key") {
        Err(McpError::InvalidArg { name, .. }) => assert_eq!(name, "key"),
        other => panic!("expected an invalid-argument error, got {:?}", other),
    }
    match strata_mcp::get_string_arg(&args, "absent") {
        Err(McpError::MissingArg(name)) => assert_eq!(name, "absent"),
        other => panic!("expected a missing-argument error, got {:?}", other),
    }
    match strata_mcp::get_u64_arg(&args, "absent") {
        Err(McpError::MissingArg(name)) => assert_eq!(name, "absent"),
        other => panic!("expected a missing-argument error, got {:?}", other),
    }
    let neg = vec![("n".to_string(), Json::Int(-4))];
    assert!(strata_mcp::get_u64_arg(&neg, "n").is_err());
    let mixed = vec![(
        "texts".to_string(),
        Json::Arr(vec![Json::Str("ok".to_string()), Json::Int(3)]),
    )];
    match strata_mcp::get_string_list(&mixed, "texts") {
        Err(McpError::InvalidArg { name, reason }) => {
            assert_eq!(name, "texts");
            assert_eq!(reason, "Expected array of strings");
        }
        other => panic!("expected an invalid-argument error, got {:?}", other),
    }
}

#[test]
fn first_field_wins_on_duplicate_names() {
    let args = vec![
        ("key".to_string(), Json::Str("first".to_string())),
        ("key".to_string(), Json::Str("second".to_string())),
    ];
    assert_eq!(strata_mcp::get_string_arg(&args, "key").unwrap(), "first");
}
