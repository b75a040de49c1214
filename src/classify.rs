//! Classifies a body as empty, a JSON document, malformed JSON, or plain
//! text, parsing it with serde_json.
use vstd::prelude::*;
use vstd::string::StrSliceExecFns;
use crate::error::EchoError;
use crate::headers::{decode_lossy, lossy_utf8};

verus! {

#[verifier::external_type_specification]
#[verifier::external_body]
pub struct ExJsonValue(serde_json::Value);

#[verifier::external_type_specification]
#[verifier::external_body]
pub struct ExJsonError(serde_json::Error);

/// Whether serde_json parses a text as one JSON value.
pub uninterp spec fn json_accepts(s: Seq<char>) -> bool;

/// What `str::trim` leaves of a text.
pub uninterp spec fn trimmed_of(s: Seq<char>) -> Seq<char>;

/// Relies on `serde_json::from_str::<Value>`: whether it succeeds depends on
/// the text alone.
#[verifier::external_body]
fn parse_json(s: &str) -> (r: Result<serde_json::Value, serde_json::Error>)
    ensures
        r is Ok <==> json_accepts(s@),
{
    serde_json::from_str::<serde_json::Value>(s)
}

/// Relies on the `Display` of `serde_json::Error` for the parser's diagnostic.
#[verifier::external_body]
fn json_error_text(e: &serde_json::Error) -> String {
    e.to_string()
}

/// Relies on `str::trim`: leading and trailing white space removed.
#[verifier::external_body]
fn trim_text(s: &str) -> (r: &str)
    ensures
        r@ == trimmed_of(s@),
{
    s.trim()
}

/// A text that begins with `{` and ends with `}`, or begins with `[` and ends
/// with `]`.
pub open spec fn json_shaped(t: Seq<char>) -> bool {
    t.len() > 0 && ((t[0] == '{' && t.last() == '}') || (t[0] == '[' && t.last() == ']'))
}

/// The four outcomes of classifying a body.
#[derive(Debug, Clone, Copy, PartialEq, Eq, Structural)]
pub enum BodyKind {
    Null,
    Json,
    InvalidJson,
    Text,
}

/// The text of a body, decoded with U+FFFD for invalid UTF-8.
pub open spec fn body_text(body: Seq<u8>) -> Seq<char> {
    lossy_utf8(body)
}

/// The outcome of classifying `body`: empty is null; otherwise its text is
/// JSON if it parses, malformed JSON if it does not but is bracketed like a
/// JSON object or array once trimmed, and plain text in any other case.
pub open spec fn classify(body: Seq<u8>) -> BodyKind {
    if body.len() == 0 {
        BodyKind::Null
    } else if json_accepts(body_text(body)) {
        BodyKind::Json
    } else if json_shaped(trimmed_of(body_text(body))) {
        BodyKind::InvalidJson
    } else {
        BodyKind::Text
    }
}

/// A body as it is echoed back.
#[derive(Debug)]
pub enum ParsedBody {
    Null,
    Json(serde_json::Value),
    Text(String),
}

/// The kind of outcome a parse result stands for.
pub open spec fn outcome_kind(r: Result<ParsedBody, EchoError>) -> BodyKind {
    match r {
        Ok(ParsedBody::Null) => BodyKind::Null,
        Ok(ParsedBody::Json(_)) => BodyKind::Json,
        Ok(ParsedBody::Text(_)) => BodyKind::Text,
        Err(_) => BodyKind::InvalidJson,
    }
}

impl ParsedBody {
    pub fn kind(&self) -> (r: BodyKind)
        ensures
            r == outcome_kind(Ok(*self)),
    {
        match self {
            ParsedBody::Null => BodyKind::Null,
            ParsedBody::Json(_) => BodyKind::Json,
            ParsedBody::Text(_) => BodyKind::Text,
        }
    }
}

/// Whether a trimmed text is bracketed like a JSON object or array.
pub fn is_json_shaped(t: &str) -> (r: bool)
    ensures
        r == json_shaped(t@),
{
    let n = t.unicode_len();
    if n == 0 {
        return false;
    }
    let first = t.get_char(0);
    let last = t.get_char(n - 1);
    (first == '{' && last == '}') || (first == '[' && last == ']')
}

/// Decides the outcome for a non-empty body's `text` once the parser has
/// answered with `parsed`.
pub fn classify_parsed(text: String, parsed: Result<serde_json::Value, serde_json::Error>) -> (r: Result<ParsedBody, EchoError>)
    ensures
        parsed matches Ok(v) ==> r == Ok::<ParsedBody, EchoError>(ParsedBody::Json(v)),
        parsed is Err ==> (json_shaped(trimmed_of(text@)) <==> r matches Err(EchoError::InvalidJson(_))),
        parsed is Err && !json_shaped(trimmed_of(text@)) ==> r == Ok::<ParsedBody, EchoError>(ParsedBody::Text(text)),
{
    match parsed {
        Ok(v) => Ok(ParsedBody::Json(v)),
        Err(e) => {
            if is_json_shaped(trim_text(text.as_str())) {
                Err(EchoError::InvalidJson(json_error_text(&e)))
            } else {
                Ok(ParsedBody::Text(text))
            }
        },
    }
}

/// Classifies and parses a body. Empty is `Null`; text that parses as JSON is
/// that value; JSON-shaped text that does not parse is `InvalidJson`, with
/// the parser's message; any other text is echoed as a string.
pub fn parse_body(body: &[u8]) -> (r: Result<ParsedBody, EchoError>)
    ensures
        outcome_kind(r) == classify(body@),
        r is Err ==> r matches Err(EchoError::InvalidJson(_)),
        r matches Ok(ParsedBody::Text(s)) ==> s@ == body_text(body@),
{
    if body.len() == 0 {
        return Ok(ParsedBody::Null);
    }
    let text = decode_lossy(body);
    let parsed = parse_json(text.as_str());
    classify_parsed(text, parsed)
}

/// Every body falls in exactly one of the four outcomes, each on the inputs
/// its description names.
pub proof fn lemma_classification_total(body: Seq<u8>)
    ensures
        classify(body) == BodyKind::Null <==> body.len() == 0,
        classify(body) == BodyKind::Json <==> body.len() > 0 && json_accepts(body_text(body)),
        classify(body) == BodyKind::InvalidJson <==> body.len() > 0 && !json_accepts(body_text(body))
            && json_shaped(trimmed_of(body_text(body))),
        classify(body) == BodyKind::Text <==> body.len() > 0 && !json_accepts(body_text(body))
            && !json_shaped(trimmed_of(body_text(body))),
{
}

} // verus!
