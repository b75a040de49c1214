//! Assembly of the reply to one request: the echo envelope on success, the
//! error envelope on failure.
use vstd::prelude::*;
use crate::body::{
    all_chunks, lemma_over_limit_too_large, lemma_within_limit_never_too_large, read_body, read_outcome,
    total_len,
};
use crate::classify::{body_text, classify, json_accepts, outcome_kind, parse_body, BodyKind, ParsedBody};
use crate::error::{details_of, message_of, status_of, EchoError, ErrorEnvelope};
use crate::headers::{header_map, process_headers};
use crate::strmap::{last_wins, StringMap};
use crate::time::Timestamp;

verus! {

/// Settings fixed at startup and only read afterwards.
pub struct AppConfig {
    /// Largest body accepted, in bytes.
    pub max_body_size: usize,
    /// Free-form identity of this server instance.
    pub tag: String,
    /// Version echoed as `server_version`.
    pub version: String,
}

/// What is known of a request before its body is read.
pub struct RequestHead {
    pub method: String,
    pub path: String,
    /// Decoded query pairs, in the order they came.
    pub query: Vec<(String, String)>,
    /// Header names with their raw value bytes, in the order they came.
    pub headers: Vec<(String, Vec<u8>)>,
}

/// The echo of a request that was handled successfully.
pub struct EchoResponse {
    pub method: String,
    pub path: String,
    pub headers: StringMap,
    pub query: StringMap,
    pub body: ParsedBody,
    pub server_tag: String,
    pub server_version: String,
    pub timestamp: String,
    pub timestamp_unix: i64,
}

/// The reply to one request.
pub enum Reply {
    Echo(EchoResponse),
    Failure(ErrorEnvelope),
}

impl Reply {
    /// The HTTP status of the reply.
    pub fn status(&self) -> (r: u16)
        ensures
            match self {
                Reply::Echo(_) => r == 200,
                Reply::Failure(env) => r == env.status,
            },
    {
        match self {
            Reply::Echo(_) => 200,
            Reply::Failure(env) => env.status,
        }
    }
}

/// `e` echoes `head` with body `body`, configuration `config` and instant `now`.
pub open spec fn echo_matches(config: AppConfig, head: RequestHead, body: Seq<u8>, now: Timestamp, e: EchoResponse) -> bool {
    &&& e.method == head.method
    &&& e.path == head.path
    &&& e.headers.wf()
    &&& e.headers@ == header_map(head.headers@)
    &&& e.query.wf()
    &&& e.query@ == last_wins(head.query@)
    &&& outcome_kind(Ok(e.body)) == classify(body)
    &&& (e.body matches ParsedBody::Text(s) ==> s@ == body_text(body))
    &&& e.server_tag == config.tag
    &&& e.server_version == config.version
    &&& e.timestamp@ == now.text()
    &&& e.timestamp_unix == now.secs()
}

/// `env` is the error envelope of `err` stamped at `now`.
pub open spec fn failure_matches(err: EchoError, now: Timestamp, env: ErrorEnvelope) -> bool {
    &&& env.status == status_of(err)
    &&& env.error@ == message_of(err)
    &&& match env.details {
        Some(d) => details_of(err) == Some(d@),
        None => details_of(err) is None,
    }
    &&& env.timestamp@ == now.text()
}

/// `r` is the reply owed to `head` whose body was read as `body`.
pub open spec fn reply_matches(
    config: AppConfig,
    head: RequestHead,
    body: Result<Seq<u8>, EchoError>,
    now: Timestamp,
    r: Reply,
) -> bool {
    match body {
        Err(err) => match r {
            Reply::Failure(env) => failure_matches(err, now, env),
            Reply::Echo(_) => false,
        },
        Ok(b) => if classify(b) == BodyKind::InvalidJson {
            match r {
                Reply::Failure(env) => {
                    &&& env.status == 400
                    &&& env.error@ == "Invalid JSON in request body"@
                    &&& env.details is Some
                    &&& env.timestamp@ == now.text()
                },
                Reply::Echo(_) => false,
            }
        } else {
            match r {
                Reply::Echo(e) => echo_matches(config, head, b, now, e),
                Reply::Failure(_) => false,
            }
        },
    }
}

/// Builds the reply to `head`, given what reading its body gave. Also
/// returns the header names whose values needed lossy decoding.
pub fn respond(config: &AppConfig, head: &RequestHead, body: Result<Vec<u8>, EchoError>, now: &Timestamp) -> (r: (Reply, Vec<String>))
    ensures
        reply_matches(
            *config,
            *head,
            match body {
                Ok(b) => Ok(b@),
                Err(e) => Err(e),
            },
            *now,
            r.0,
        ),
{
    let normalized = process_headers(&head.headers);
    let bytes = match body {
        Ok(b) => b,
        Err(e) => {
            return (Reply::Failure(e.into_envelope(now.text_value())), normalized.lossy);
        },
    };
    let parsed = match parse_body(bytes.as_slice()) {
        Ok(p) => p,
        Err(e) => {
            proof { reveal_strlit("Invalid JSON in request body"); }
            return (Reply::Failure(e.into_envelope(now.text_value())), normalized.lossy);
        },
    };
    let echo = EchoResponse {
        method: head.method.clone(),
        path: head.path.clone(),
        headers: normalized.map,
        query: StringMap::from_pairs(&head.query),
        body: parsed,
        server_tag: config.tag.clone(),
        server_version: config.version.clone(),
        timestamp: now.text_value(),
        timestamp_unix: now.unix_secs(),
    };
    (Reply::Echo(echo), normalized.lossy)
}

/// The whole pipeline on a body stream given as its events: reads the body
/// within the configured limit, classifies it, and builds the reply.
pub fn echo(config: &AppConfig, head: &RequestHead, items: &Vec<Result<Vec<u8>, String>>, now: &Timestamp) -> (r: (Reply, Vec<String>))
    ensures
        reply_matches(*config, *head, read_outcome(config.max_body_size as nat, items@), *now, r.0),
{
    let body = read_body(items, config.max_body_size);
    respond(config, head, body, now)
}

/// A body of at most `max_body_size` bytes is never refused as too large:
/// neither reading it nor the reply says so.
pub proof fn lemma_within_limit_never_413(
    config: AppConfig,
    head: RequestHead,
    items: Seq<Result<Vec<u8>, String>>,
    now: Timestamp,
    r: Reply,
)
    requires
        total_len(items) <= config.max_body_size,
        reply_matches(config, head, read_outcome(config.max_body_size as nat, items), now, r),
    ensures
        read_outcome(config.max_body_size as nat, items) != Err::<Seq<u8>, EchoError>(EchoError::BodyTooLarge),
        r matches Reply::Failure(env) ==> env.status != 413,
{
    lemma_within_limit_never_too_large(config.max_body_size as nat, items);
}

/// A body of more than `max_body_size` bytes is refused with 413 and the
/// too-large envelope, whatever its content.
pub proof fn lemma_over_limit_413(
    config: AppConfig,
    head: RequestHead,
    items: Seq<Result<Vec<u8>, String>>,
    now: Timestamp,
    r: Reply,
)
    requires
        all_chunks(items),
        total_len(items) > config.max_body_size,
        reply_matches(config, head, read_outcome(config.max_body_size as nat, items), now, r),
    ensures
        match r {
            Reply::Failure(env) => env.status == 413 && env.error@ == "Request body too large"@
                && env.details is None,
            Reply::Echo(_) => false,
        },
{
    lemma_over_limit_too_large(config.max_body_size as nat, items);
}

/// Two replies agree on everything but their time stamps, apart from what
/// serde_json alone decides: the value of a JSON body and the text of its
/// parse error.
pub open spec fn same_but_time(r1: Reply, r2: Reply) -> bool {
    match (r1, r2) {
        (Reply::Echo(e1), Reply::Echo(e2)) => {
            &&& e1.method == e2.method
            &&& e1.path == e2.path
            &&& e1.headers@ == e2.headers@
            &&& e1.query@ == e2.query@
            &&& outcome_kind(Ok(e1.body)) == outcome_kind(Ok(e2.body))
            &&& (e1.body matches ParsedBody::Text(s1) ==> e2.body matches ParsedBody::Text(s2) && s1@ == s2@)
            &&& e1.server_tag == e2.server_tag
            &&& e1.server_version == e2.server_version
        },
        (Reply::Failure(f1), Reply::Failure(f2)) => {
            &&& f1.status == f2.status
            &&& f1.error@ == f2.error@
            &&& (f1.details is Some <==> f2.details is Some)
            &&& (f1.status == 413 ==> f1.details is None)
        },
        _ => false,
    }
}

/// The same request, read the same way, gets the same reply at any two
/// instants, but for the time stamps and what serde_json decides.
pub proof fn lemma_same_request_same_reply(
    config: AppConfig,
    head: RequestHead,
    body: Result<Seq<u8>, EchoError>,
    t1: Timestamp,
    t2: Timestamp,
    r1: Reply,
    r2: Reply,
)
    requires
        reply_matches(config, head, body, t1, r1),
        reply_matches(config, head, body, t2, r2),
    ensures
        same_but_time(r1, r2),
{
}

/// A body that serde_json parses is echoed as the parsed JSON value.
pub proof fn lemma_json_body_echoed(config: AppConfig, head: RequestHead, body: Seq<u8>, now: Timestamp, r: Reply)
    requires
        body.len() > 0,
        json_accepts(body_text(body)),
        reply_matches(config, head, Ok(body), now, r),
    ensures
        r matches Reply::Echo(e) && e.body is Json,
{
}

/// An empty body is echoed as null, with a success reply.
pub proof fn lemma_empty_body_null(config: AppConfig, head: RequestHead, now: Timestamp, r: Reply)
    requires
        reply_matches(config, head, Ok(Seq::<u8>::empty()), now, r),
    ensures
        r matches Reply::Echo(e) && e.body is Null,
{
}

} // verus!
