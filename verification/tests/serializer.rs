use pbgql::{to_json_string, JsonValue};

#[test]
fn scalar_values_serialize_exactly() {
    assert_eq!(to_json_string(&JsonValue::Null), "null");
    assert_eq!(to_json_string(&JsonValue::Bool(true)), "true");
    assert_eq!(to_json_string(&JsonValue::Bool(false)), "false");
    assert_eq!(to_json_string(&JsonValue::Int(0)), "0");
    assert_eq!(to_json_string(&JsonValue::Int(42)), "42");
    assert_eq!(to_json_string(&JsonValue::Int(-7)), "-7");
}

#[test]
fn int_extremes_serialize_exactly() {
    assert_eq!(
        to_json_string(&JsonValue::Int(i64::MAX)),
        "9223372036854775807"
    );
    assert_eq!(
        to_json_string(&JsonValue::Int(i64::MIN)),
        "-9223372036854775808"
    );
}

#[test]
fn strings_escape_exactly() {
    let v = JsonValue::Str(String::from("a\"b\\c\nd\re\tf\u{1}g"));
    assert_eq!(
        to_json_string(&v),
        "\"a\\\"b\\\\c\\nd\\re\\tf\\u0001g\""
    );
}

#[test]
fn nested_values_serialize_exactly() {
    let v = JsonValue::Obj(vec![
        (
            String::from("input"),
            JsonValue::Arr(vec![
                JsonValue::Str(String::from("Rust")),
                JsonValue::Int(1),
                JsonValue::Null,
            ]),
        ),
        (String::from("flag"), JsonValue::Bool(false)),
    ]);
    assert_eq!(
        to_json_string(&v),
        "{\"input\":[\"Rust\",1,null],\"flag\":false}"
    );
}

#[test]
fn serializer_output_is_json_that_serde_accepts() {
    let v = JsonValue::Obj(vec![
        (String::from("title"), JsonValue::Str(String::from("Software Engineer"))),
        (String::from("location"), JsonValue::Str(String::from("Sydney"))),
        (
            String::from("requiredSkills"),
            JsonValue::Arr(vec![
                JsonValue::Str(String::from("Rust")),
                JsonValue::Str(String::from("Go")),
            ]),
        ),
    ]);
    let text = to_json_string(&v);
    let parsed: serde_json::Value = serde_json::from_str(&text).unwrap();
    assert_eq!(
        parsed.get("title").unwrap().as_str().unwrap(),
        "Software Engineer"
    );
    assert_eq!(parsed.get("location").unwrap().as_str().unwrap(), "Sydney");
    let skills = parsed.get("requiredSkills").unwrap().as_array().unwrap();
    assert_eq!(skills.len(), 2);
    assert_eq!(skills[0].as_str().unwrap(), "Rust");
    assert_eq!(skills[1].as_str().unwrap(), "Go");
}
