use pbgql::{build_body, JsonValue, Variables};

#[test]
fn body_without_variables_omits_key() {
    let query = "query { countries { name } }";
    let body = build_body(query, None);
    let parsed: serde_json::Value = serde_json::from_str(&body).unwrap();
    assert!(parsed.get("variables").is_none());
    assert_eq!(parsed.get("query").unwrap().as_str().unwrap(), query);
}

#[test]
fn body_without_variables_exact_text() {
    let body = build_body("{ x }", None);
    assert_eq!(body, "{\"query\":\"{ x }\"}");
}

#[test]
fn body_with_empty_mapping_keeps_key() {
    let vars = Variables::new();
    let body = build_body("{ x }", Some(&vars));
    assert_eq!(body, "{\"query\":\"{ x }\",\"variables\":{}}");
    let parsed: serde_json::Value = serde_json::from_str(&body).unwrap();
    assert!(parsed.get("variables").unwrap().as_object().unwrap().is_empty());
}

#[test]
fn body_reencodes_the_mapping() {
    let mut vars = Variables::new();
    vars.insert(
        String::from("name"),
        JsonValue::Str(String::from("Australia")),
    );
    vars.insert(String::from("limit"), JsonValue::Int(3));
    let body = build_body("query getCountry($name: String!) { x }", Some(&vars));
    let parsed: serde_json::Value = serde_json::from_str(&body).unwrap();
    let sent = parsed.get("variables").unwrap();
    assert_eq!(sent.get("name").unwrap().as_str().unwrap(), "Australia");
    assert_eq!(sent.get("limit").unwrap().as_i64().unwrap(), 3);
    assert_eq!(sent.as_object().unwrap().len(), 2);
}

#[test]
fn query_text_escapes_and_round_trips() {
    let query = "query { field(arg: \"a\\b\") }\n\ttail \u{1} é";
    let body = build_body(query, None);
    let parsed: serde_json::Value = serde_json::from_str(&body).unwrap();
    assert_eq!(parsed.get("query").unwrap().as_str().unwrap(), query);
}

#[test]
fn insert_replaces_an_existing_key() {
    let mut vars = Variables::new();
    vars.insert(String::from("name"), JsonValue::Str(String::from("first")));
    vars.insert(String::from("other"), JsonValue::Bool(true));
    vars.insert(String::from("name"), JsonValue::Str(String::from("second")));
    assert_eq!(vars.len(), 2);
    let body = build_body("{ x }", Some(&vars));
    let parsed: serde_json::Value = serde_json::from_str(&body).unwrap();
    let sent = parsed.get("variables").unwrap();
    assert_eq!(sent.get("name").unwrap().as_str().unwrap(), "second");
    assert_eq!(sent.as_object().unwrap().len(), 2);
}
