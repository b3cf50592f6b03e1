use rustwasgi::asgi::{
    admit_message, build_http_scope, direct_queue, disconnect_message, establish_error,
    establish_http_call, establish_step, feed_disconnect, feed_message, first_message,
    parse_send_message, percent_decode, request_message, Establishing, PushError, QueuePut,
    RequestData, ResponseEvent, Rule, SendError, SendSink, Transport,
};
use rustwasgi::metrics;
use rustwasgi::metrics::Metrics;
use rustwasgi::value::Value;

fn text(s: &str) -> Value {
    Value::Str(s.to_string())
}

fn bytes(b: &[u8]) -> Value {
    Value::Bytes(b.to_vec())
}

fn dict(entries: Vec<(&str, Value)>) -> Value {
    Value::Dict(entries.into_iter().map(|(k, v)| (k.to_string(), v)).collect())
}

fn start(entries: Vec<(&str, Value)>) -> Value {
    let mut all = vec![("type", text("http.response.start"))];
    all.extend(entries);
    dict(all)
}

fn rejected(message: &Value) -> String {
    match parse_send_message(message) {
        Ok(event) => panic!("accepted: {event:?}"),
        Err(e) => e.message(),
    }
}

fn header(name: &[u8], value: &[u8]) -> Value {
    Value::Tuple(vec![bytes(name), bytes(value)])
}

#[test]
fn start_is_read() {
    let message = start(vec![
        ("status", Value::Int(404)),
        (
            "headers",
            Value::List(vec![
                header(b"content-type", b"text/plain"),
                header(b"transfer-encoding", b"chunked"),
                Value::List(vec![bytes(b"x-a"), Value::ByteArray(b"1".to_vec())]),
                header(b"x-a", b"2"),
                header(b"x-empty", b""),
            ]),
        ),
        ("unknown", Value::Other),
    ]);
    match parse_send_message(&message) {
        Ok(ResponseEvent::Start { status, headers }) => {
            assert_eq!(status, 404);
            assert_eq!(
                headers,
                vec![
                    (b"content-type".to_vec(), b"text/plain".to_vec()),
                    (b"x-a".to_vec(), b"1".to_vec()),
                    (b"x-a".to_vec(), b"2".to_vec()),
                    (b"x-empty".to_vec(), b"".to_vec()),
                ]
            );
        }
        other => panic!("{other:?}"),
    }
}

#[test]
fn start_without_headers() {
    let message = start(vec![("status", Value::Bool(true))]);
    assert_eq!(rejected(&message), "send(): invalid HTTP status 1");
    let message = start(vec![("status", Value::Int(100))]);
    match parse_send_message(&message) {
        Ok(ResponseEvent::Start { status, headers }) => {
            assert_eq!(status, 100);
            assert!(headers.is_empty());
        }
        other => panic!("{other:?}"),
    }
}

#[test]
fn body_is_read() {
    let message = dict(vec![
        ("type", text("http.response.body")),
        ("body", bytes(b"abc")),
        ("more_body", Value::Bool(true)),
    ]);
    match parse_send_message(&message) {
        Ok(ResponseEvent::Body { data, more_body }) => {
            assert_eq!(data, b"abc".to_vec());
            assert!(more_body);
        }
        other => panic!("{other:?}"),
    }
    let bare = dict(vec![("type", text("http.response.body")), ("more_body", Value::Int(1))]);
    match parse_send_message(&bare) {
        Ok(ResponseEvent::Body { data, more_body }) => {
            assert!(data.is_empty());
            assert!(!more_body);
        }
        other => panic!("{other:?}"),
    }
}

#[test]
fn every_rule_has_its_text() {
    assert_eq!(rejected(&dict(vec![])), "send(): message missing 'type'");
    assert_eq!(rejected(&Value::List(vec![])), "send(): message missing 'type'");
    assert_eq!(
        rejected(&dict(vec![("type", Value::Int(1))])),
        "send(): message 'type' must be str"
    );
    assert_eq!(
        rejected(&start(vec![])),
        "send(): http.response.start missing 'status'"
    );
    assert_eq!(
        rejected(&start(vec![("status", text("200"))])),
        "send(): 'status' must be an integer"
    );
    assert_eq!(
        rejected(&start(vec![("status", Value::Int(70000))])),
        "send(): 'status' must be an integer"
    );
    assert_eq!(
        rejected(&start(vec![("status", Value::Int(600))])),
        "send(): invalid HTTP status 600"
    );
    assert_eq!(
        rejected(&start(vec![("status", Value::Int(99))])),
        "send(): invalid HTTP status 99"
    );
    let trailers = "send(): HTTP trailers are not supported by this server";
    assert_eq!(
        rejected(&start(vec![("status", Value::Int(200)), ("trailers", Value::Bool(true))])),
        trailers
    );
    assert_eq!(rejected(&dict(vec![("type", text("http.response.trailers"))])), trailers);
    assert_eq!(
        rejected(&dict(vec![("type", text("http.\"x\""))])),
        "send(): unsupported message type \"http.\\\"x\\\"\""
    );
    assert_eq!(
        rejected(&dict(vec![("type", text("http.response.body")), ("body", text("abc"))])),
        "send(): 'body' must be bytes"
    );
}

#[test]
fn null_body_is_empty() {
    let message = dict(vec![("type", text("http.response.body")), ("body", Value::Null)]);
    match parse_send_message(&message) {
        Ok(ResponseEvent::Body { data, more_body }) => {
            assert!(data.is_empty());
            assert!(!more_body);
        }
        other => panic!("{other:?}"),
    }
}

#[test]
fn bad_headers_are_rejected() {
    let with = |h: Value| start(vec![("status", Value::Int(200)), ("headers", h)]);
    assert_eq!(rejected(&with(Value::Int(3))), "send(): 'headers' must be iterable");
    let shape = "send(): headers must be 2-item (name, value) sequences";
    assert_eq!(rejected(&with(Value::List(vec![Value::Int(3)]))), shape);
    assert_eq!(rejected(&with(Value::List(vec![Value::Tuple(vec![bytes(b"a")])]))), shape);
    assert_eq!(rejected(&with(dict(vec![("abc", Value::Null)]))), shape);
    assert_eq!(
        rejected(&with(dict(vec![("ab", Value::Null)]))),
        "send(): header names must be bytes"
    );
    assert_eq!(
        rejected(&with(Value::List(vec![Value::Tuple(vec![text("a"), bytes(b"b")])]))),
        "send(): header names must be bytes"
    );
    assert_eq!(
        rejected(&with(Value::List(vec![Value::Tuple(vec![bytes(b"a"), text("b")])]))),
        "send(): header values must be bytes"
    );
    assert_eq!(
        rejected(&with(Value::List(vec![Value::Tuple(vec![bytes(b"x-a"), Value::Null])]))),
        "send(): header values must be bytes"
    );
    assert_eq!(
        rejected(&with(Value::List(vec![Value::Tuple(vec![Value::Null, bytes(b"1")])]))),
        "send(): header names must be bytes"
    );
    assert_eq!(
        rejected(&with(Value::List(vec![header(b"Content-Type", b"x")]))),
        "send(): response header names must be lowercase"
    );
    assert_eq!(
        rejected(&with(Value::List(vec![header(b":status", b"x")]))),
        "send(): pseudo-headers are not allowed"
    );
    let raising = with(Value::Iter(vec![header(b"a", b"b"), Value::Raised]));
    assert!(matches!(parse_send_message(&raising), Err(SendError::Raised)));
    let early = with(Value::Iter(vec![header(b"A", b"b"), Value::Raised]));
    assert!(matches!(
        parse_send_message(&early),
        Err(SendError::Rule(Rule::HeaderNotLowercase))
    ));
    assert_eq!(rejected(&raising), "");
}

#[test]
fn trailers_that_are_no_truth_value_are_ignored() {
    let message = start(vec![("status", Value::Int(200)), ("trailers", Value::Int(1))]);
    assert!(parse_send_message(&message).is_ok());
}

fn body(data: &[u8]) -> Value {
    dict(vec![("type", text("http.response.body")), ("body", bytes(data))])
}

#[test]
fn push_hands_over_or_hands_back() {
    let (tx, mut rx) = tokio::sync::mpsc::channel::<ResponseEvent>(1);
    let sink = SendSink::new(tx);
    let mut m = Metrics::new(Some("1"));
    assert!(matches!(sink.push(&mut m, false, &body(b"one")), Ok(None)));
    match sink.push(&mut m, false, &body(b"two")) {
        Ok(Some(ResponseEvent::Body { data, .. })) => assert_eq!(data, b"two".to_vec()),
        other => panic!("{other:?}"),
    }
    match rx.try_recv() {
        Ok(ResponseEvent::Body { data, .. }) => assert_eq!(data, b"one".to_vec()),
        other => panic!("{other:?}"),
    }
    let after = sink.push(&mut m, true, &body(b"three"));
    assert!(matches!(after, Err(PushError::Disconnected)));
    let wrong = sink.push(&mut m, false, &dict(vec![]));
    assert!(matches!(wrong, Err(PushError::Rejected(SendError::Rule(Rule::MissingType)))));
    drop(rx);
    let closed = sink.push(&mut m, false, &body(b"four"));
    match closed {
        Err(e) => {
            assert!(e.is_os_error());
            assert_eq!(e.message(Transport::Http), "ASGI send(): connection closed");
        }
        other => panic!("{other:?}"),
    }
    let rows = metrics::report(&m);
    let mut fast = 0;
    let mut full = 0;
    for row in rows {
        if let metrics::Row::Ratio { name, count, .. } = row {
            if name == "send_try_ok" {
                fast = count;
            }
            if name == "send_full_wait" {
                full = count;
            }
        }
    }
    assert_eq!((fast, full), (1, 1));
}

#[test]
fn push_errors_have_texts() {
    assert_eq!(
        PushError::Disconnected.message(Transport::Http),
        "ASGI send(): connection closed (send after disconnect)"
    );
    assert_eq!(
        PushError::Disconnected.message(Transport::WebSocket),
        "ASGI send(): websocket closed (send after disconnect)"
    );
    assert_eq!(PushError::Closed.message(Transport::WebSocket), "ASGI send(): websocket closed");
    let e = PushError::Rejected(SendError::InvalidStatus(7));
    assert!(!e.is_os_error());
    assert_eq!(e.message(Transport::Http), "send(): invalid HTTP status 7");
    assert!(matches!(admit_message(true, &Value::Null), Err(PushError::Disconnected)));
    assert!(matches!(
        admit_message(false, &Value::Null),
        Err(PushError::Rejected(SendError::Rule(Rule::MissingType)))
    ));
}

fn request(has_body: bool) -> RequestData {
    RequestData {
        method: "GET".to_string(),
        http_version: "1.1".to_string(),
        scheme: "http".to_string(),
        path: "/a b".to_string(),
        raw_path: b"/a%20b".to_vec(),
        query_string: b"q=1".to_vec(),
        root_path: "/root".to_string(),
        headers: vec![(b"host".to_vec(), b"x".to_vec()), (b"host".to_vec(), b"y".to_vec())],
        has_body,
        client_host: "127.0.0.1:9".to_string(),
        client_port: 9,
        server_host: "0.0.0.0".to_string(),
        server_port: 8000,
    }
}

fn entries(v: &Value) -> &Vec<(String, Value)> {
    match v {
        Value::Dict(m) => m,
        _ => panic!("no mapping"),
    }
}

#[test]
fn scope_shows_the_request() {
    let scope = build_http_scope(&request(false), false);
    let m = entries(&scope);
    let keys: Vec<&str> = m.iter().map(|e| e.0.as_str()).collect();
    assert_eq!(
        keys,
        vec![
            "type", "asgi", "http_version", "method", "scheme", "path", "raw_path",
            "query_string", "root_path", "headers", "client", "server", "extensions", "state"
        ]
    );
    assert!(matches!(&m[0].1, Value::Str(s) if s == "http"));
    let asgi = entries(&m[1].1);
    assert!(matches!(&asgi[0], (k, Value::Str(s)) if k == "version" && s == "3.0"));
    assert!(matches!(&asgi[1], (k, Value::Str(s)) if k == "spec_version" && s == "2.5"));
    assert!(matches!(&m[5].1, Value::Str(s) if s == "/a b"));
    assert!(matches!(&m[6].1, Value::Bytes(b) if b == b"/a%20b"));
    match &m[9].1 {
        Value::List(hs) => {
            assert_eq!(hs.len(), 2);
            match &hs[1] {
                Value::Tuple(p) => {
                    assert!(matches!(&p[0], Value::Bytes(b) if b == b"host"));
                    assert!(matches!(&p[1], Value::Bytes(b) if b == b"y"));
                }
                _ => panic!("no pair"),
            }
        }
        _ => panic!("no list"),
    }
    match &m[10].1 {
        Value::Tuple(p) => {
            assert!(matches!(&p[0], Value::Str(s) if s == "127.0.0.1:9"));
            assert!(matches!(&p[1], Value::Int(9)));
        }
        _ => panic!("no pair"),
    }
    assert!(matches!(&m[13].1, Value::Dict(d) if d.is_empty()));
    let scope = build_http_scope(&request(false), true);
    assert!(matches!(&entries(&scope)[13].1, Value::State));
}

#[test]
fn bodyless_requests_get_their_end_in_advance() {
    match first_message(&request(false)) {
        Some(v) => {
            let m = entries(&v);
            assert!(matches!(&m[0], (k, Value::Str(s)) if k == "type" && s == "http.request"));
            assert!(matches!(&m[1], (k, Value::Bytes(b)) if k == "body" && b.is_empty()));
            assert!(matches!(&m[2], (k, Value::Bool(false)) if k == "more_body"));
        }
        None => panic!("nothing"),
    }
    assert!(first_message(&request(true)).is_none());
    let chunk = request_message(&b"abc".to_vec(), true);
    assert!(matches!(&entries(&chunk)[1].1, Value::Bytes(b) if b == b"abc"));
    assert!(matches!(&entries(&chunk)[2].1, Value::Bool(true)));
    let gone = disconnect_message();
    assert!(matches!(&entries(&gone)[0].1, Value::Str(s) if s == "http.disconnect"));
}

#[test]
fn queues_by_interpreter_version() {
    assert!(!direct_queue(None));
    assert!(!direct_queue(Some((3, 9))));
    assert!(direct_queue(Some((3, 10))));
    assert!(direct_queue(Some((4, 0))));
    assert!(!direct_queue(Some((2, 99))));
}

#[test]
fn set_up_of_a_call() {
    let mut m = Metrics::new(Some("1"));
    assert_eq!(establish_http_call(true), Establishing::Direct);
    assert_eq!(establish_step(&mut m, Establishing::Direct, true), Establishing::Ready);
    let mut stage = establish_http_call(false);
    let mut steps = 0;
    while stage != Establishing::Ready {
        stage = establish_step(&mut m, stage, true);
        steps += 1;
    }
    assert_eq!(steps, 4);
    let attaches = metrics::report(&m).into_iter().find_map(|r| match r {
        metrics::Row::Ratio { name: "gil_attach", count, .. } => Some(count),
        _ => None,
    });
    assert_eq!(attaches, Some(4));
    let failed = establish_step(&mut m, Establishing::Unpack, false);
    assert_eq!(establish_error(failed), Some("ASGI channel init failed"));
    let failed = establish_step(&mut m, Establishing::Submit, false);
    assert_eq!(establish_error(failed), Some("ASGI submit failed"));
    assert_eq!(establish_error(Establishing::Ready), None);
}

#[test]
fn queue_outcomes_have_texts() {
    assert_eq!(feed_message(QueuePut::Done), Ok(()));
    assert_eq!(feed_message(QueuePut::SubmitFailed), Err("request queue submit failed"));
    assert_eq!(feed_message(QueuePut::TimedOut), Err("request queue put timed out"));
    assert_eq!(feed_message(QueuePut::Failed), Err("request queue put failed"));
    assert_eq!(feed_disconnect(QueuePut::Done), None);
    assert_eq!(feed_disconnect(QueuePut::SubmitFailed), Some("disconnect submit failed"));
    assert_eq!(feed_disconnect(QueuePut::TimedOut), Some("disconnect wait timed out"));
    assert_eq!(feed_disconnect(QueuePut::Failed), Some("disconnect wait failed"));
}

#[test]
fn escapes_are_resolved() {
    assert_eq!(percent_decode("/a%20b"), "/a b");
    assert_eq!(percent_decode("%41%6a%4A"), "AjJ");
    assert_eq!(percent_decode("%c3%A9"), "\u{e9}");
    assert_eq!(percent_decode("100%"), "100%");
    assert_eq!(percent_decode("%4"), "%4");
    assert_eq!(percent_decode("%zz%2"), "%zz%2");
    assert_eq!(percent_decode("%%41"), "%A");
    assert_eq!(percent_decode("%ff"), "\u{fffd}");
    assert_eq!(percent_decode("/\u{fc}ber"), "/\u{fc}ber");
    assert_eq!(percent_decode(""), "");
}
