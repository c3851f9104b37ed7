use std::collections::HashMap;

use pbgql::{decode_result, extract_data, GqlError};

#[test]
fn data_member_round_trips_untyped() {
    let resp = "{\"data\":{\"countries\":[{\"name\":\"Australia\"}]}}";
    let data = extract_data(resp).unwrap();
    let parsed: serde_json::Value = serde_json::from_str(&data).unwrap();
    let countries = parsed.get("countries").unwrap().as_array().unwrap();
    assert_eq!(
        countries.first().unwrap().get("name").unwrap().as_str().unwrap(),
        "Australia"
    );
}

#[test]
fn data_member_round_trips_typed() {
    let resp = "{\"data\":{\"countries\":[{\"name\":\"Australia\"}]}}";
    let data = extract_data(resp).unwrap();
    let typed: HashMap<String, Vec<HashMap<String, String>>> =
        decode_result(serde_json::from_str(&data)).unwrap();
    assert_eq!(typed["countries"][0]["name"], "Australia");
}

#[test]
fn data_member_comes_back_canonical() {
    let resp = " { \"data\" : { \"a\" : 1 } } ";
    assert_eq!(extract_data(resp).unwrap(), "{\"a\":1}");
}

#[test]
fn missing_data_error_carries_raw_body() {
    let resp = "{\"errors\":[{\"message\":\"boom\"}]}";
    let err = extract_data(resp).unwrap_err();
    assert!(matches!(err, GqlError::MissingData(_)));
    assert!(err.message().contains(resp));
}

#[test]
fn server_complaint_stays_visible() {
    let resp = "{\"errors\":[{\"message\":\"Variable type provided [AddJobInputInvalid!]! is incompatible with expected type [AddJobInput!]!\"}]}";
    let err = extract_data(resp).unwrap_err();
    assert!(err.message().contains("incompatible with expected type"));
}

#[test]
fn invalid_json_is_a_parse_error() {
    let err = extract_data("countries: offline").unwrap_err();
    assert!(matches!(err, GqlError::Parse(_)));
}

#[test]
fn shape_mismatch_is_a_deserialization_error() {
    let resp = "{\"data\":{\"addJob\":{\"numUids\":null}}}";
    let data = extract_data(resp).unwrap();
    let decoded: Result<HashMap<String, HashMap<String, i64>>, GqlError> =
        decode_result(serde_json::from_str(&data));
    let err = decoded.unwrap_err();
    assert!(matches!(err, GqlError::Deserialization(_)));
    assert!(err.message().contains("invalid type"));
}

#[test]
fn decoded_values_pass_through_untouched() {
    let out: i64 = decode_result(serde_json::from_str("41")).unwrap();
    assert_eq!(out, 41);
}

#[test]
fn transport_errors_show_their_report() {
    let err = GqlError::Transport(String::from("connection refused"));
    assert!(err.message().contains("connection refused"));
}
