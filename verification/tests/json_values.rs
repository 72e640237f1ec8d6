use jito_sdk_rust::json::{JsonNumber, JsonValue, PrettyJsonValue};
use jito_sdk_rust::sdk::JitoJsonRpcSDK;

fn to_outside(value: &JsonValue) -> serde_json::Value {
    match value {
        JsonValue::Null => serde_json::Value::Null,
        JsonValue::Bool(b) => serde_json::Value::Bool(*b),
        JsonValue::Number(JsonNumber::PosInt(u)) => serde_json::Value::from(*u),
        JsonValue::Number(JsonNumber::NegInt(i)) => serde_json::Value::from(*i),
        JsonValue::Number(JsonNumber::Float(bits)) => serde_json::Value::from(f64::from_bits(*bits)),
        JsonValue::String(s) => serde_json::Value::String(s.clone()),
        JsonValue::Array(items) => serde_json::Value::Array(items.iter().map(to_outside).collect()),
        JsonValue::Object(fields) => {
            let mut map = serde_json::Map::new();
            for (key, item) in fields {
                if !map.contains_key(key) {
                    map.insert(key.clone(), to_outside(item));
                }
            }
            serde_json::Value::Object(map)
        }
    }
}

fn from_outside(value: &serde_json::Value) -> JsonValue {
    match value {
        serde_json::Value::Null => JsonValue::Null,
        serde_json::Value::Bool(b) => JsonValue::Bool(*b),
        serde_json::Value::Number(n) => {
            if let Some(u) = n.as_u64() {
                JsonValue::Number(JsonNumber::PosInt(u))
            } else if let Some(i) = n.as_i64() {
                JsonValue::Number(JsonNumber::NegInt(i))
            } else {
                JsonValue::Number(JsonNumber::Float(n.as_f64().unwrap().to_bits()))
            }
        }
        serde_json::Value::String(s) => JsonValue::String(s.clone()),
        serde_json::Value::Array(items) => JsonValue::Array(items.iter().map(from_outside).collect()),
        serde_json::Value::Object(map) => {
            JsonValue::Object(map.iter().map(|(key, item)| (key.clone(), from_outside(item))).collect())
        }
    }
}

fn sample_response() -> JsonValue {
    JsonValue::Object(vec![
        ("id".to_string(), JsonValue::Number(JsonNumber::PosInt(1))),
        ("jsonrpc".to_string(), JsonValue::String("2.0".to_string())),
        (
            "result".to_string(),
            JsonValue::Object(vec![
                (
                    "context".to_string(),
                    JsonValue::Object(vec![(
                        "slot".to_string(),
                        JsonValue::Number(JsonNumber::PosInt(u64::MAX)),
                    )]),
                ),
                (
                    "value".to_string(),
                    JsonValue::Array(vec![
                        JsonValue::String("z-last \"quoted\" \n line".to_string()),
                        JsonValue::Number(JsonNumber::NegInt(i64::MIN)),
                        JsonValue::Number(JsonNumber::Float(0.1f64.to_bits())),
                        JsonValue::Number(JsonNumber::Float(1.0e300f64.to_bits())),
                        JsonValue::Bool(false),
                        JsonValue::Null,
                        JsonValue::Array(vec![]),
                        JsonValue::String("a-first".to_string()),
                    ]),
                ),
            ]),
        ),
    ])
}

#[test]
fn a_pretty_value_read_back_from_its_text_is_the_same_value() {
    let value = sample_response();
    let pretty = JitoJsonRpcSDK::prettify(value.clone());
    let text = serde_json::to_string_pretty(&to_outside(&pretty.0)).unwrap();
    assert!(text.contains('\n'));
    let read = from_outside(&serde_json::from_str::<serde_json::Value>(&text).unwrap());
    assert_eq!(read, value);
    assert_eq!(PrettyJsonValue(read).into_inner(), pretty.into_inner());
}

#[test]
fn a_clone_is_the_same_tree() {
    let value = sample_response();
    let copy = value.clone();
    assert_eq!(copy, value);
    assert_eq!(JsonValue::Null.clone(), JsonValue::Null);
    assert_eq!(JsonValue::Array(vec![]).clone(), JsonValue::Array(vec![]));
}

#[test]
fn get_finds_the_first_field_of_a_name() {
    let value = JsonValue::Object(vec![
        ("a".to_string(), JsonValue::Bool(true)),
        ("b".to_string(), JsonValue::Null),
        ("a".to_string(), JsonValue::Bool(false)),
        ("".to_string(), JsonValue::String("empty".to_string())),
    ]);
    assert_eq!(value.get("a"), Some(&JsonValue::Bool(true)));
    assert_eq!(value.get("b"), Some(&JsonValue::Null));
    assert_eq!(value.get(""), Some(&JsonValue::String("empty".to_string())));
    assert_eq!(value.get("c"), None);
    assert_eq!(value.get("A"), None);
    assert_eq!(JsonValue::Object(vec![]).get("a"), None);
}

#[test]
fn get_on_what_is_no_object_finds_nothing() {
    assert_eq!(JsonValue::Null.get("a"), None);
    assert_eq!(JsonValue::String("a".to_string()).get("a"), None);
    assert_eq!(JsonValue::Array(vec![JsonValue::Object(vec![])]).get("a"), None);
}

#[test]
fn as_array_and_as_str_tell_the_variants_apart() {
    let items = vec![JsonValue::Null, JsonValue::Bool(true)];
    assert_eq!(JsonValue::Array(items.clone()).as_array(), Some(&items));
    assert_eq!(JsonValue::Array(vec![]).as_array(), Some(&vec![]));
    assert_eq!(JsonValue::String("x".to_string()).as_array(), None);
    assert_eq!(JsonValue::Object(vec![]).as_array(), None);
    assert_eq!(JsonValue::String("x".to_string()).as_str(), Some("x"));
    assert_eq!(JsonValue::String(String::new()).as_str(), Some(""));
    assert_eq!(JsonValue::Array(items).as_str(), None);
    assert_eq!(JsonValue::Null.as_str(), None);
    assert_eq!(JsonValue::Number(JsonNumber::PosInt(0)).as_str(), None);
}

#[test]
fn from_strings_keeps_order_and_texts() {
    let value = JsonValue::from_strings(vec!["b".to_string(), "".to_string(), "a".to_string()]);
    assert_eq!(
        value,
        JsonValue::Array(vec![
            JsonValue::String("b".to_string()),
            JsonValue::String(String::new()),
            JsonValue::String("a".to_string()),
        ])
    );
    assert_eq!(JsonValue::from_strings(vec![]), JsonValue::Array(vec![]));
}

#[test]
fn integers_stand_in_the_variant_of_their_sign() {
    assert_eq!(JsonNumber::from_i64(0), JsonNumber::PosInt(0));
    assert_eq!(JsonNumber::from_i64(17), JsonNumber::PosInt(17));
    assert_eq!(JsonNumber::from_i64(i64::MAX), JsonNumber::PosInt(i64::MAX as u64));
    assert_eq!(JsonNumber::from_i64(-1), JsonNumber::NegInt(-1));
    assert_eq!(JsonNumber::from_i64(i64::MIN), JsonNumber::NegInt(i64::MIN));
}
