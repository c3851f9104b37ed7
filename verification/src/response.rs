use vstd::prelude::*;

use crate::error::GqlError;

verus! {

#[verifier::external_type_specification]
#[verifier::external_body]
pub struct ExValue(serde_json::Value);

#[verifier::external_type_specification]
#[verifier::external_body]
pub struct ExJsonError(serde_json::Error);

/// What a `serde_json::Value` holds, modelled as the compact JSON text it
/// serializes to: with the crate's default, deterministically ordered map
/// representation, that text is a function of the value alone.
pub uninterp spec fn value_text(v: serde_json::Value) -> Seq<char>;

/// What `serde_json::from_str::<Value>` returns on a text: the canonical
/// (re-serialized) form of the document when the text is valid JSON, nothing
/// otherwise.
pub uninterp spec fn json_parse(s: Seq<char>) -> Option<Seq<char>>;

/// What `serde_json::Value::get` returns, as a function of the canonical text
/// of the value and the key: the canonical text of that member when the value
/// is an object carrying the key, nothing otherwise.
pub uninterp spec fn json_member(s: Seq<char>, key: Seq<char>) -> Option<Seq<char>>;

/// What a `serde_json::Error` holds, modelled as the report its `Display`
/// impl writes: that text is a function of the error value alone.
pub uninterp spec fn error_text(e: serde_json::Error) -> Seq<char>;

/// The key under which a GraphQL response carries its result.
pub open spec fn data_key() -> Seq<char> {
    "data"@
}

/// Relies on `serde_json::from_str::<Value>`: it returns a parsed value
/// exactly when the text is a valid JSON document, and the parsed value
/// re-serializes to the document's canonical form.
#[verifier::external_body]
fn parse_json(s: &str) -> (r: Result<serde_json::Value, serde_json::Error>)
    ensures
        r is Ok <==> json_parse(s@) is Some,
        r matches Ok(v) ==> json_parse(s@) == Some(value_text(v)),
{
    serde_json::from_str(s)
}

/// Relies on `serde_json::Value::get`: with a string key it returns a member
/// exactly when the value is an object carrying that key, and returns that
/// member itself.
#[verifier::external_body]
fn get_member<'a>(v: &'a serde_json::Value, key: &str) -> (r: Option<&'a serde_json::Value>)
    ensures
        r is Some <==> json_member(value_text(*v), key@) is Some,
        r matches Some(m) ==> json_member(value_text(*v), key@) == Some(value_text(*m)),
{
    v.get(key)
}

/// Relies on the `Display` impl of `serde_json::Value`: it writes the value's
/// compact serialization.
#[verifier::external_body]
fn value_to_string(v: &serde_json::Value) -> (r: String)
    ensures
        r@ == value_text(*v),
{
    v.to_string()
}

/// Relies on the `Display` impl of `serde_json::Error`: it writes the error's
/// report.
#[verifier::external_body]
fn error_to_string(e: &serde_json::Error) -> (r: String)
    ensures
        r@ == error_text(*e),
{
    e.to_string()
}

/// Pulls the `data` member out of a raw response body: the canonical text of
/// that member when the body is JSON and carries one; a parse error when the
/// body is not JSON; a missing-data error holding the full raw body when the
/// body is JSON without a `data` member.
pub fn extract_data(resp: &str) -> (r: Result<String, GqlError>)
    ensures
        match json_parse(resp@) {
            Option::None => r matches Err(e) && e matches GqlError::Parse(_),
            Option::Some(canon) => match json_member(canon, data_key()) {
                Option::None => r matches Err(e) && e matches GqlError::MissingData(body)
                    && body@ == resp@,
                Option::Some(d) => r matches Ok(t) && t@ == d,
            },
        },
{
    match parse_json(resp) {
        Result::Err(e) => Result::Err(GqlError::Parse(error_to_string(&e))),
        Result::Ok(v) => match get_member(&v, "data") {
            Option::None => Result::Err(GqlError::MissingData(resp.to_owned())),
            Option::Some(d) => Result::Ok(value_to_string(d)),
        },
    }
}

/// Finishes a decode of the `data` member into the caller's requested shape:
/// passes a decoded value through untouched, and turns a decoder report into a
/// deserialization error holding that report verbatim — never into a made-up
/// value.
pub fn decode_result<T>(r: Result<T, serde_json::Error>) -> (out: Result<T, GqlError>)
    ensures
        out is Ok <==> r is Ok,
        r matches Ok(v) ==> out matches Ok(w) && w == v,
        r matches Err(e) ==> (out matches Err(g) && g matches GqlError::Deserialization(m)
            && m@ == error_text(e)),
{
    match r {
        Result::Ok(v) => Result::Ok(v),
        Result::Err(e) => Result::Err(GqlError::Deserialization(error_to_string(&e))),
    }
}

} // verus!
