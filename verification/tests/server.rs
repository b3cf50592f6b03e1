use rustwasgi::asgi::QueuePut;
use rustwasgi::headers::{has_body, RequestHead, Version};
use rustwasgi::metrics::Metrics;
use rustwasgi::server::worker::{
    accept_error_line, connection_builder, drain_line, heartbeat_answer, heartbeat_tick,
    keeps_accepting, listening_line, quota_line, request_done, serving_line, stop_line, turn_away,
    unix_client, Action, Beat, Event, Shutdown, ShutdownKind, Signal, Stage, Watcher, Worker,
};
use rustwasgi::server::{
    access_line, failure_response, feed_outcome, feed_step, handle_request,
    handle_websocket_upgrade, log_access, log_access_task, query_for_log, request_data,
    response_head, status_response, AccessPlan, BodyFrame, FeedPlan, Route, Upgrade,
};
use rustwasgi::value::Value;

fn head(headers: Vec<(&str, &str)>) -> RequestHead {
    RequestHead {
        method: "GET".to_string(),
        version: Version::Http11,
        scheme: None,
        path: "/a%20b".to_string(),
        query: Some("x=%20".to_string()),
        headers: headers
            .into_iter()
            .map(|(k, v)| (k.to_string(), v.as_bytes().to_vec()))
            .collect(),
    }
}

fn announces(headers: Vec<(&str, &str)>) -> bool {
    has_body(&head(headers).headers)
}

#[test]
fn bodies_are_announced() {
    assert!(!announces(vec![]));
    assert!(!announces(vec![("content-length", "0")]));
    assert!(!announces(vec![("content-length", " 000\t")]));
    assert!(announces(vec![("content-length", "17")]));
    assert!(announces(vec![("content-length", "-1")]));
    assert!(announces(vec![("content-length", "abc")]));
    assert!(announces(vec![("content-length", "99999999999999999999999")]));
    assert!(announces(vec![("content-length", "0\u{e9}")]));
    assert!(announces(vec![("transfer-encoding", "identity"), ("content-length", "0")]));
}

#[test]
fn request_becomes_data() {
    let data = request_data(&head(vec![("host", "h"), ("x", "1"), ("x", "2")]), "/r", "c", 1, "s", 2);
    assert_eq!(data.method, "GET");
    assert_eq!(data.http_version, "1.1");
    assert_eq!(data.scheme, "http");
    assert_eq!(data.path, "/a b");
    assert_eq!(data.raw_path, b"/a%20b".to_vec());
    assert_eq!(data.query_string, b"x=%20".to_vec());
    assert_eq!(data.root_path, "/r");
    assert_eq!(data.headers.len(), 3);
    assert_eq!(data.headers[2], (b"x".to_vec(), b"2".to_vec()));
    assert!(!data.has_body);
    assert_eq!((data.client_host.as_str(), data.client_port), ("c", 1));
    assert_eq!((data.server_host.as_str(), data.server_port), ("s", 2));
    assert_eq!(query_for_log(&data), "x=%20");
    let mut other = head(vec![]);
    other.scheme = Some("https".to_string());
    other.query = None;
    let data = request_data(&other, "", "", 0, "", 0);
    assert_eq!(data.scheme, "https");
    assert!(data.query_string.is_empty());
}

#[test]
fn versions_have_names() {
    assert_eq!(Version::Http09.name(), "1.1");
    assert_eq!(Version::Http10.name(), "1.0");
    assert_eq!(Version::Http2.name(), "2");
    assert_eq!(Version::Http3.name(), "3");
    assert_eq!(Version::Http3.upgrade_name(), "1.1");
    assert_eq!(Version::Http10.upgrade_name(), "1.0");
}

#[test]
fn plain_responses() {
    let r = status_response(503, "Server shutting down");
    assert_eq!(r.status, 503);
    assert_eq!(r.body, "Server shutting down\n");
    assert_eq!(
        r.headers,
        vec![
            ("content-type".to_string(), "text/plain; charset=utf-8".to_string()),
            ("content-length".to_string(), "21".to_string()),
        ]
    );
    let r = status_response(200, "\u{e9}");
    assert_eq!(r.headers[1].1, "3");
    let r = failure_response();
    assert_eq!((r.status, r.body.as_str()), (500, "Internal Server Error\n"));
}

#[test]
fn header_names_are_tokens() {
    let sent = |name: Vec<u8>| {
        let r = response_head(200, &vec![(name, b"v".to_vec())]);
        r.headers.into_iter().next().map(|(n, _)| n)
    };
    let marks = b"!#$%&'*+-.^_`|~";
    for b in 0u8..=255 {
        let token = b.is_ascii_alphanumeric() || marks.contains(&b);
        let expected = if token { Some(vec![b.to_ascii_lowercase()]) } else { None };
        assert_eq!(sent(vec![b]), expected, "{b}");
        let expected = if token { Some(vec![b.to_ascii_lowercase(); 200]) } else { None };
        assert_eq!(sent(vec![b; 200]), expected, "{b}");
    }
    assert_eq!(sent(b"Content-TYPE".to_vec()), Some(b"content-type".to_vec()));
    assert_eq!(sent(vec![]), None);
    assert!(sent(vec![b'a'; 65535]).is_some());
    assert!(sent(vec![b'a'; 65536]).is_none());
}

#[test]
fn heads_of_responses() {
    let given = vec![
        (b"content-type".to_vec(), b"text/plain".to_vec()),
        (b"bad name".to_vec(), b"x".to_vec()),
        (b"x-line".to_vec(), b"a\nb".to_vec()),
        (b"x-high".to_vec(), vec![9, 32, 0xfa]),
        (b"x-del".to_vec(), vec![127]),
    ];
    let r = response_head(201, &given);
    assert_eq!(r.status, 201);
    assert_eq!(
        r.headers,
        vec![
            (b"content-type".to_vec(), b"text/plain".to_vec()),
            (b"x-high".to_vec(), vec![9, 32, 0xfa]),
        ]
    );
    assert_eq!(
        r.warnings,
        vec![
            "WARN rustwasgi: skipping invalid response header \"bad name\"".to_string(),
            "WARN rustwasgi: skipping invalid response header \"x-line\"".to_string(),
            "WARN rustwasgi: skipping invalid response header \"x-del\"".to_string(),
        ]
    );
    assert_eq!(response_head(99, &vec![]).status, 500);
    assert_eq!(response_head(1000, &vec![]).status, 500);
    assert_eq!(response_head(999, &vec![]).status, 999);
    let upper = response_head(200, &vec![(b"X-Up".to_vec(), b"v".to_vec())]);
    assert_eq!(upper.headers, vec![(b"x-up".to_vec(), b"v".to_vec())]);
}

#[test]
fn requests_are_routed() {
    assert_eq!(handle_request(&head(vec![])), Route::Http);
    let up = head(vec![("upgrade", "websocket"), ("connection", "Upgrade")]);
    assert_eq!(handle_request(&up), Route::WebSocket);
}

#[test]
fn upgrades_are_answered() {
    match handle_websocket_upgrade(&head(vec![])) {
        Upgrade::Refused(r) => {
            assert_eq!((r.status, r.body.as_str()), (400, "Missing Sec-WebSocket-Key\n"));
        }
        other => panic!("{other:?}"),
    }
    let keyed = head(vec![("sec-websocket-key", "dGhlIHNhbXBsZSBub25jZQ==")]);
    match handle_websocket_upgrade(&keyed) {
        Upgrade::Switch { response, handshake } => {
            assert_eq!(response.status, 101);
            assert!(response.body.is_empty());
            assert_eq!(
                response.headers[2],
                (
                    "sec-websocket-accept".to_string(),
                    "s3pPLMBiTxaQ9kYGzzhZRbK+xOo=".to_string()
                )
            );
            assert_eq!(handshake.path, "/a%20b");
            assert_eq!(handshake.raw_path, b"/a%20b".to_vec());
            assert_eq!(handshake.query_string, b"x=%20".to_vec());
            assert_eq!(handshake.scheme, "ws");
            assert_eq!(handshake.http_version, "1.1");
        }
        other => panic!("{other:?}"),
    }
}

#[test]
fn feeding_of_bodies() {
    let mut m = Metrics::new(None);
    let chunk = feed_step(&mut m, BodyFrame::Data(b"abc".to_vec()));
    match &chunk {
        FeedPlan::Chunk(Value::Dict(d)) => {
            assert!(matches!(&d[1].1, Value::Bytes(b) if b == b"abc"));
            assert!(matches!(&d[2].1, Value::Bool(true)));
        }
        _ => panic!("no chunk"),
    }
    assert_eq!(feed_outcome(&chunk, QueuePut::Done), (true, false));
    assert_eq!(feed_outcome(&chunk, QueuePut::TimedOut), (false, true));
    let skip = feed_step(&mut m, BodyFrame::Data(vec![]));
    assert!(matches!(skip, FeedPlan::Skip));
    assert_eq!(feed_outcome(&skip, QueuePut::Done), (true, false));
    assert!(matches!(feed_step(&mut m, BodyFrame::Meta), FeedPlan::Skip));
    let end = feed_step(&mut m, BodyFrame::End);
    match &end {
        FeedPlan::Terminal(Value::Dict(d)) => {
            assert!(matches!(&d[1].1, Value::Bytes(b) if b.is_empty()));
            assert!(matches!(&d[2].1, Value::Bool(false)));
        }
        _ => panic!("no end"),
    }
    assert_eq!(feed_outcome(&end, QueuePut::Failed), (false, false));
}

#[test]
fn access_log() {
    let mut m = Metrics::new(None);
    assert_eq!(log_access(&mut m, false, false), AccessPlan::Nowhere);
    assert_eq!(log_access(&mut m, true, false), AccessPlan::Hook);
    assert_eq!(log_access_task(true, true), AccessPlan::Hook);
    assert_eq!(log_access_task(false, true), AccessPlan::Stderr);
    assert_eq!(
        access_line("1.2.3.4:5", "GET", "/x", 200, 12, "3.1"),
        "INFO rustwasgi: 1.2.3.4:5 \"GET /x\" 200 12 3.1ms"
    );
}

#[test]
fn shutdown_is_triggered_once() {
    let mut s = Shutdown::new();
    assert!(!s.is_set());
    assert!(turn_away(&s).is_none());
    assert!(keeps_accepting(&s));
    assert!(s.trigger(ShutdownKind::Graceful));
    assert_eq!(s.kind(), ShutdownKind::Graceful);
    assert!(!s.trigger(ShutdownKind::Quick));
    assert_eq!(s.kind(), ShutdownKind::Quick);
    assert!(!s.trigger(ShutdownKind::Graceful));
    assert_eq!(s.kind(), ShutdownKind::Quick);
    assert_eq!(turn_away(&s).map(|r| r.status), Some(503));
    assert!(!keeps_accepting(&s));
}

#[test]
fn quota_of_requests() {
    let mut s = Shutdown::new();
    let mut done: usize = 0;
    assert_eq!(request_done(&mut done, 0, &mut s), None);
    assert_eq!(request_done(&mut done, 3, &mut s), None);
    assert!(!s.is_set());
    assert_eq!(request_done(&mut done, 3, &mut s), Some(true));
    assert_eq!(done, 3);
    assert!(s.is_set());
    assert_eq!(request_done(&mut done, 3, &mut s), Some(false));
    assert_eq!(quota_line(3), "INFO rustwasgi: max_requests reached (3); recycling worker");
}

#[test]
fn connections_and_clients() {
    assert_eq!(connection_builder(0), None);
    assert_eq!(connection_builder(5), Some(5));
    assert_eq!(unix_client(None), (String::new(), 0));
    assert_eq!(unix_client(Some("/p".to_string())), ("/p".to_string(), 0));
    assert_eq!(listening_line("http://x"), "INFO rustwasgi: listening on http://x");
    assert_eq!(serving_line("a:b", 7), "INFO rustwasgi: worker serving a:b (pid=7)");
    assert_eq!(accept_error_line("d", "e"), "WARN rustwasgi: accept error on d: e");
}

#[test]
fn signals_stop_the_worker() {
    let mut w = Watcher::new();
    assert_eq!(
        w.watch_signals(Signal::Terminate, false),
        (Some(ShutdownKind::Graceful), true)
    );
    assert_eq!(w.watch_signals(Signal::Interrupt, false), (Some(ShutdownKind::Quick), false));
    let mut w = Watcher::new();
    assert_eq!(w.watch_signals(Signal::Quit, false), (Some(ShutdownKind::Quick), true));
    assert_eq!(w.watch_signals(Signal::Served, false), (None, false));
    let mut w = Watcher::new();
    assert_eq!(
        w.watch_signals(Signal::Terminate, true),
        (Some(ShutdownKind::Graceful), false)
    );
}

#[test]
fn heartbeats() {
    let mut s = Shutdown::new();
    assert_eq!(heartbeat_tick(&s, false), Beat::Ask);
    let orphaned = heartbeat_tick(&s, true);
    assert_eq!(orphaned.kind(), Some(ShutdownKind::Quick));
    assert_eq!(orphaned.line(), Some("WARN rustwasgi: parent changed; shutting down"));
    assert_eq!(heartbeat_answer(None), Beat::Wait);
    assert_eq!(heartbeat_answer(Some(true)), Beat::Wait);
    let dead = heartbeat_answer(Some(false));
    assert_eq!(dead.kind(), Some(ShutdownKind::Graceful));
    assert_eq!(dead.line(), Some("INFO rustwasgi: worker marked not alive; shutting down"));
    s.trigger(ShutdownKind::Graceful);
    assert_eq!(heartbeat_tick(&s, true), Beat::Stop);
    assert_eq!(Beat::Stop.kind(), None);
    assert_eq!(Beat::Wait.line(), None);
}

#[test]
fn graceful_worker_drains() {
    let mut w = Worker::serve(2);
    assert_eq!(
        w.step(Event::Asked { kind: ShutdownKind::Graceful }),
        Action::Announce { kind: ShutdownKind::Graceful }
    );
    assert_eq!(w.step(Event::Joined), Action::Look);
    assert_eq!(w.step(Event::Looked { in_flight: 2, elapsed_ns: 1_999_999_999 }), Action::Pause);
    assert_eq!(
        w.step(Event::Looked { in_flight: 1, elapsed_ns: 2_000_000_000 }),
        Action::Drained { remaining: 1 }
    );
    assert_eq!(w.step(Event::Closed), Action::Release);
    assert_eq!(w.stage, Stage::Done);
    assert_eq!(
        drain_line(1, 2),
        "WARN rustwasgi: shutdown with 1 in-flight request(s) after 2s"
    );
    assert_eq!(drain_line(0, 2), "INFO rustwasgi: shutdown complete");
    assert_eq!(format!("{:?}", std::time::Duration::from_secs(2)), "2s");
}

#[test]
fn quick_worker_does_not() {
    let mut w = Worker::serve(2);
    w.step(Event::Asked { kind: ShutdownKind::Quick });
    assert_eq!(w.step(Event::Joined), Action::Abort);
    assert_eq!(stop_line(ShutdownKind::Quick), "INFO rustwasgi: quick shutdown");
    assert_eq!(
        stop_line(ShutdownKind::Graceful),
        "INFO rustwasgi: shutting down gracefully"
    );
    let mut w = Worker::serve(2);
    w.step(Event::Asked { kind: ShutdownKind::Graceful });
    w.step(Event::Joined);
    assert_eq!(
        w.step(Event::Looked { in_flight: 0, elapsed_ns: 0 }),
        Action::Drained { remaining: 0 }
    );
}

#[test]
fn quota_is_reached_once() {
    let mut s = Shutdown::new();
    let mut done: usize = 0;
    for n in 1..10 {
        let over = request_done(&mut done, 4, &mut s);
        assert_eq!(over.is_some(), n >= 4);
        assert_eq!(over == Some(true), n == 4);
        assert_eq!(s.is_set(), n >= 4);
        assert_eq!(s.kind(), ShutdownKind::Graceful);
    }
}
