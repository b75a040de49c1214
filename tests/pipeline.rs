use echo_server::body::{read_body, BodyReader};
use echo_server::classify::{is_json_shaped, parse_body, BodyKind, ParsedBody};
use echo_server::error::EchoError;
use echo_server::headers::process_headers;
use echo_server::response::{echo, respond, AppConfig, Reply, RequestHead};
use echo_server::strmap::StringMap;
use echo_server::time::Timestamp;

fn config(max: usize) -> AppConfig {
    AppConfig { max_body_size: max, tag: "echo-server".to_string(), version: "0.1.0".to_string() }
}

fn head(method: &str, path: &str, query: &[(&str, &str)], headers: &[(&str, &[u8])]) -> RequestHead {
    RequestHead {
        method: method.to_string(),
        path: path.to_string(),
        query: query.iter().map(|(k, v)| (k.to_string(), v.to_string())).collect(),
        headers: headers.iter().map(|(k, v)| (k.to_string(), v.to_vec())).collect(),
    }
}

fn now() -> Timestamp {
    Timestamp::at(1431648000, 0).unwrap()
}

fn chunks(parts: &[&[u8]]) -> Vec<Result<Vec<u8>, String>> {
    parts.iter().map(|p| Ok(p.to_vec())).collect()
}

#[test]
fn get_with_repeated_query_key_echoes_last_value() {
    let h = head("GET", "/foo", &[("a", "1"), ("a", "2")], &[]);
    let (reply, lossy) = echo(&config(65536), &h, &Vec::new(), &now());
    assert!(lossy.is_empty());
    assert_eq!(reply.status(), 200);
    match reply {
        Reply::Echo(e) => {
            assert_eq!(e.path, "/foo");
            assert_eq!(e.method, "GET");
            assert_eq!(e.query.len(), 1);
            assert_eq!(e.query.get("a").unwrap(), "2");
            assert!(matches!(e.body, ParsedBody::Null));
            assert_eq!(e.server_tag, "echo-server");
            assert_eq!(e.server_version, "0.1.0");
        }
        Reply::Failure(_) => panic!("expected an echo"),
    }
}

#[test]
fn json_body_is_echoed_as_json() {
    let h = head("POST", "/", &[], &[("content-type", b"application/json")]);
    let (reply, _) = echo(&config(65536), &h, &chunks(&[b"{\"x\":1}"]), &now());
    assert_eq!(reply.status(), 200);
    match reply {
        Reply::Echo(e) => {
            let expected: serde_json::Value = serde_json::from_str("{\"x\":1}").unwrap();
            match e.body {
                ParsedBody::Json(v) => assert_eq!(v, expected),
                other => panic!("expected JSON, got {:?}", other),
            }
            assert_eq!(e.headers.get("content-type").unwrap(), "application/json");
        }
        Reply::Failure(_) => panic!("expected an echo"),
    }
}

#[test]
fn truncated_json_is_echoed_as_text() {
    // Unbalanced brackets do not look like JSON, so the text is echoed.
    let h = head("POST", "/", &[], &[]);
    let (reply, _) = echo(&config(65536), &h, &chunks(&[b"{\"x\":1"]), &now());
    assert_eq!(reply.status(), 200);
    match reply {
        Reply::Echo(e) => match e.body {
            ParsedBody::Text(s) => assert_eq!(s, "{\"x\":1"),
            other => panic!("expected text, got {:?}", other),
        },
        Reply::Failure(_) => panic!("expected an echo"),
    }
}

#[test]
fn malformed_json_is_rejected_with_details() {
    let h = head("POST", "/", &[], &[]);
    let (reply, _) = echo(&config(65536), &h, &chunks(&[b"{\"x\":1,}"]), &now());
    assert_eq!(reply.status(), 400);
    match reply {
        Reply::Failure(env) => {
            assert_eq!(env.error, "Invalid JSON in request body");
            assert!(!env.details.unwrap().is_empty());
        }
        Reply::Echo(_) => panic!("expected a failure"),
    }
}

#[test]
fn plain_text_is_echoed_as_string() {
    let h = head("POST", "/", &[], &[]);
    let (reply, _) = echo(&config(65536), &h, &chunks(&[b"hello ", b"world"]), &now());
    assert_eq!(reply.status(), 200);
    match reply {
        Reply::Echo(e) => match e.body {
            ParsedBody::Text(s) => assert_eq!(s, "hello world"),
            other => panic!("expected text, got {:?}", other),
        },
        Reply::Failure(_) => panic!("expected an echo"),
    }
}

#[test]
fn oversized_body_gets_413_without_details() {
    let h = head("POST", "/", &[], &[]);
    let body = [b'a'; 20];
    let (reply, _) = echo(&config(10), &h, &chunks(&[&body]), &now());
    assert_eq!(reply.status(), 413);
    match reply {
        Reply::Failure(env) => {
            assert_eq!(env.error, "Request body too large");
            assert!(env.details.is_none());
            assert_eq!(env.timestamp, "2015-05-15T00:00:00+00:00");
        }
        Reply::Echo(_) => panic!("expected a failure"),
    }
}

#[test]
fn invalid_header_bytes_are_decoded_lossily() {
    let h = head("GET", "/", &[], &[("x-bin", &[b'a', 0xff, b'b']), ("x-ok", b"fine")]);
    let (reply, lossy) = echo(&config(65536), &h, &Vec::new(), &now());
    assert_eq!(lossy, vec!["x-bin".to_string()]);
    assert_eq!(reply.status(), 200);
    match reply {
        Reply::Echo(e) => {
            assert_eq!(e.headers.get("x-bin").unwrap(), "a\u{FFFD}b");
            assert_eq!(e.headers.get("x-ok").unwrap(), "fine");
        }
        Reply::Failure(_) => panic!("expected an echo"),
    }
}

#[test]
fn empty_body_is_null_with_200() {
    let h = head("PUT", "/x", &[], &[]);
    let (reply, _) = echo(&config(0), &h, &chunks(&[b""]), &now());
    assert_eq!(reply.status(), 200);
    match reply {
        Reply::Echo(e) => assert!(matches!(e.body, ParsedBody::Null)),
        Reply::Failure(_) => panic!("expected an echo"),
    }
}

#[test]
fn body_of_exactly_the_limit_is_accepted() {
    let h = head("POST", "/", &[], &[]);
    let (reply, _) = echo(&config(10), &h, &chunks(&[b"01234", b"56789"]), &now());
    assert_eq!(reply.status(), 200);
    let (reply, _) = echo(&config(10), &h, &chunks(&[b"01234", b"567890"]), &now());
    assert_eq!(reply.status(), 413);
}

#[test]
fn read_failure_gets_400_with_message() {
    let h = head("POST", "/", &[], &[]);
    let items = vec![Ok(b"ab".to_vec()), Err("connection reset".to_string()), Ok(b"cd".to_vec())];
    let (reply, _) = echo(&config(65536), &h, &items, &now());
    assert_eq!(reply.status(), 400);
    match reply {
        Reply::Failure(env) => {
            assert_eq!(env.error, "Failed to read request body");
            assert_eq!(env.details.unwrap(), "connection reset");
        }
        Reply::Echo(_) => panic!("expected a failure"),
    }
}

#[test]
fn same_request_twice_differs_only_in_time() {
    let h = head("POST", "/p", &[("k", "v")], &[("a", b"1")]);
    let items = chunks(&[b"[1,2,3]"]);
    let (r1, _) = echo(&config(100), &h, &items, &Timestamp::at(1, 0).unwrap());
    let (r2, _) = echo(&config(100), &h, &items, &Timestamp::at(2, 0).unwrap());
    match (r1, r2) {
        (Reply::Echo(a), Reply::Echo(b)) => {
            assert_eq!(a.method, b.method);
            assert_eq!(a.path, b.path);
            assert_eq!(a.headers.entries(), b.headers.entries());
            assert_eq!(a.query.entries(), b.query.entries());
            match (a.body, b.body) {
                (ParsedBody::Json(x), ParsedBody::Json(y)) => assert_eq!(x, y),
                _ => panic!("expected JSON bodies"),
            }
            assert_eq!(a.timestamp_unix, 1);
            assert_eq!(b.timestamp_unix, 2);
            assert_ne!(a.timestamp, b.timestamp);
        }
        _ => panic!("expected echoes"),
    }
}

#[test]
fn respond_passes_read_errors_through() {
    let h = head("GET", "/", &[], &[]);
    let (reply, _) = respond(&config(5), &h, Err(EchoError::BodyTooLarge), &now());
    assert_eq!(reply.status(), 413);
    let (reply, _) = respond(&config(5), &h, Ok(b"null".to_vec()), &now());
    match reply {
        Reply::Echo(e) => match e.body {
            ParsedBody::Json(v) => assert!(v.is_null()),
            other => panic!("expected JSON null, got {:?}", other),
        },
        Reply::Failure(_) => panic!("expected an echo"),
    }
}

#[test]
fn parse_body_covers_every_kind() {
    assert_eq!(parse_body(b"").unwrap().kind(), BodyKind::Null);
    assert_eq!(parse_body(b" {\"a\": [true]} ").unwrap().kind(), BodyKind::Json);
    assert_eq!(parse_body(b"42").unwrap().kind(), BodyKind::Json);
    assert!(matches!(parse_body(b"  [1, 2  \n"), Ok(ParsedBody::Text(_))));
    assert!(matches!(parse_body(b"\t[1, 2,]\n"), Err(EchoError::InvalidJson(_))));
    assert!(matches!(parse_body(b"{oops}"), Err(EchoError::InvalidJson(_))));
    match parse_body(b"a=1&b=2").unwrap() {
        ParsedBody::Text(s) => assert_eq!(s, "a=1&b=2"),
        other => panic!("expected text, got {:?}", other),
    }
    match parse_body(&[0xff, b'x']).unwrap() {
        ParsedBody::Text(s) => assert_eq!(s, "\u{FFFD}x"),
        other => panic!("expected text, got {:?}", other),
    }
}

#[test]
fn json_shape_test_needs_matching_brackets() {
    assert!(is_json_shaped("{}"));
    assert!(is_json_shaped("[x]"));
    assert!(!is_json_shaped("{]"));
    assert!(!is_json_shaped("{"));
    assert!(!is_json_shaped(""));
    assert!(!is_json_shaped("a{}"));
}

#[test]
fn error_table() {
    let e = EchoError::BodyTooLarge;
    assert_eq!((e.status(), e.message(), e.details()), (413, "Request body too large".to_string(), None));
    let e = EchoError::BodyReadError("boom".to_string());
    assert_eq!((e.status(), e.message(), e.details()), (400, "Failed to read request body".to_string(), Some("boom".to_string())));
    let e = EchoError::InvalidJson("eof".to_string());
    assert_eq!((e.status(), e.message(), e.details()), (400, "Invalid JSON in request body".to_string(), Some("eof".to_string())));
    let env = EchoError::InvalidJson("eof".to_string()).into_envelope("t".to_string());
    assert_eq!((env.status, env.error.as_str(), env.details, env.timestamp.as_str()), (400, "Invalid JSON in request body", Some("eof".to_string()), "t"));
}

#[test]
fn reader_stops_at_the_limit() {
    let mut r = BodyReader::new(4);
    assert!(r.push_chunk(b"ab").is_ok());
    assert!(r.push_chunk(b"cd").is_ok());
    assert_eq!(r.push_chunk(b"e"), Err(EchoError::BodyTooLarge));
    assert!(r.push_chunk(b"").is_ok());
    assert_eq!(r.finish(), b"abcd".to_vec());
    assert_eq!(read_body(&chunks(&[b"abc", b"de"]), 4), Err(EchoError::BodyTooLarge));
    assert_eq!(read_body(&chunks(&[b"abc", b"d"]), 4), Ok(b"abcd".to_vec()));
    assert_eq!(read_body(&Vec::new(), 0), Ok(Vec::new()));
}

#[test]
fn duplicate_headers_keep_the_last_value() {
    let pairs = vec![
        ("accept".to_string(), b"a".to_vec()),
        ("x".to_string(), b"1".to_vec()),
        ("accept".to_string(), b"b".to_vec()),
    ];
    let n = process_headers(&pairs);
    assert_eq!(n.map.len(), 2);
    assert_eq!(n.map.get("accept").unwrap(), "b");
    assert_eq!(n.map.get("x").unwrap(), "1");
    assert!(n.map.get("y").is_none());
    assert!(n.lossy.is_empty());
}

#[test]
fn string_map_insert_replaces() {
    let mut m = StringMap::new();
    m.insert("k".to_string(), "1".to_string());
    m.insert("j".to_string(), "2".to_string());
    m.insert("k".to_string(), "3".to_string());
    assert_eq!(m.entries(), &vec![("k".to_string(), "3".to_string()), ("j".to_string(), "2".to_string())]);
    let pairs = vec![("a".to_string(), "1".to_string()), ("a".to_string(), "2".to_string())];
    assert_eq!(StringMap::from_pairs(&pairs).get("a").unwrap(), "2");
}

#[test]
fn timestamp_forms_agree() {
    let t = Timestamp::at(0, 0).unwrap();
    assert_eq!(t.text_value(), "1970-01-01T00:00:00+00:00");
    assert_eq!(t.unix_secs(), 0);
    let t = Timestamp::at(1431648000, 500_000_000).unwrap();
    assert_eq!(t.text_value(), "2015-05-15T00:00:00.500+00:00");
    assert!(Timestamp::at(0, 2_000_000_000).is_none());
}
