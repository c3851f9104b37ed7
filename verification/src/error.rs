use vstd::prelude::*;
use vstd::string::StringExecFns;

verus! {

/// Why one call failed. Every failure carries the text that describes it: the
/// transport's own report, the parser's report, the raw response body when no
/// `data` member came back, or the decoder's report of a shape mismatch.
#[derive(Debug)]
pub enum GqlError {
    /// The request never produced a response body.
    Transport(String),
    /// The response body is not valid JSON.
    Parse(String),
    /// The response is JSON without a `data` member; holds the full raw body.
    MissingData(String),
    /// The `data` member does not match the requested shape.
    Deserialization(String),
}

pub open spec fn transport_prefix() -> Seq<char> {
    "transport failure: "@
}

pub open spec fn parse_prefix() -> Seq<char> {
    "response body is not valid json: "@
}

pub open spec fn missing_data_prefix() -> Seq<char> {
    "response carries no data member: "@
}

pub open spec fn deserialization_prefix() -> Seq<char> {
    "data member does not match the requested shape: "@
}

/// The text that the error carries: the transport or parser report, the raw
/// response body, or the decoder report.
pub open spec fn payload_text(e: GqlError) -> Seq<char> {
    match e {
        GqlError::Transport(s) => s@,
        GqlError::Parse(s) => s@,
        GqlError::MissingData(s) => s@,
        GqlError::Deserialization(s) => s@,
    }
}

/// What [`GqlError::message`] returns: a prefix naming the failure, then the
/// payload verbatim.
pub open spec fn message_text(e: GqlError) -> Seq<char> {
    match e {
        GqlError::Transport(s) => transport_prefix() + s@,
        GqlError::Parse(s) => parse_prefix() + s@,
        GqlError::MissingData(s) => missing_data_prefix() + s@,
        GqlError::Deserialization(s) => deserialization_prefix() + s@,
    }
}

/// Whether `needle` occurs in `hay` as a contiguous run of characters.
pub open spec fn text_contains(hay: Seq<char>, needle: Seq<char>) -> bool {
    exists|i: int|
        0 <= i && i + needle.len() <= hay.len() && #[trigger] hay.subrange(i, i + needle.len())
            == needle
}

impl GqlError {
    /// A description of the failure, for the caller to present.
    pub fn message(&self) -> (r: String)
        ensures
            r@ == message_text(*self),
    {
        match self {
            GqlError::Transport(s) => {
                let mut m = "transport failure: ".to_owned();
                m.append(s.as_str());
                m
            },
            GqlError::Parse(s) => {
                let mut m = "response body is not valid json: ".to_owned();
                m.append(s.as_str());
                m
            },
            GqlError::MissingData(s) => {
                let mut m = "response carries no data member: ".to_owned();
                m.append(s.as_str());
                m
            },
            GqlError::Deserialization(s) => {
                let mut m = "data member does not match the requested shape: ".to_owned();
                m.append(s.as_str());
                m
            },
        }
    }
}

/// Law: the message of an error contains, verbatim, the full payload the error
/// was built from — in particular, a missing-data error's message contains the
/// raw response body, and a deserialization error's message contains the
/// decoder's report unmodified.
pub proof fn lemma_message_contains_payload(e: GqlError)
    ensures
        text_contains(message_text(e), payload_text(e)),
{
    let hay = message_text(e);
    let needle = payload_text(e);
    let i: int = (hay.len() - needle.len()) as int;
    assert(hay.subrange(i, i + needle.len()) =~= needle);
    assert(text_contains(hay, needle));
}

} // verus!
