use rustwasgi::asgi::{PushError, Rule, SendError};
use rustwasgi::headers::{RequestHead, Version};
use rustwasgi::value::Value;
use rustwasgi::ws::driver::{Driver, Event, Feed, Frame, Line, Payload, Reason, Stage};
use rustwasgi::ws::{
    accept_key, build_ws_scope, inbound_message, is_reportable, is_websocket_upgrade,
    parse_ws_message, WsEvent, WsHandshake, WsInbound, WsSink,
};

fn text(s: &str) -> Value {
    Value::Str(s.to_string())
}

fn dict(entries: Vec<(&str, Value)>) -> Value {
    Value::Dict(entries.into_iter().map(|(k, v)| (k.to_string(), v)).collect())
}

fn entries(v: &Value) -> &Vec<(String, Value)> {
    match v {
        Value::Dict(m) => m,
        _ => panic!("no mapping"),
    }
}

#[test]
fn ws_messages_are_read() {
    let accept = parse_ws_message(&dict(vec![("type", text("websocket.accept"))]));
    assert!(matches!(accept, Ok(WsEvent::Accept)));
    let sent = parse_ws_message(&dict(vec![
        ("type", text("websocket.send")),
        ("text", text("hello")),
    ]));
    assert!(matches!(sent, Ok(WsEvent::SendText(s)) if s == "hello"));
    let sent = parse_ws_message(&dict(vec![
        ("type", text("websocket.send")),
        ("bytes", Value::ByteArray(vec![1, 2])),
    ]));
    assert!(matches!(sent, Ok(WsEvent::SendBytes(b)) if b == vec![1, 2]));
    let closed = parse_ws_message(&dict(vec![("type", text("websocket.close"))]));
    assert!(matches!(closed, Ok(WsEvent::Close { code: 1000, reason }) if reason.is_empty()));
    let closed = parse_ws_message(&dict(vec![
        ("type", text("websocket.close")),
        ("code", Value::Int(4001)),
        ("reason", text("bye")),
    ]));
    assert!(matches!(closed, Ok(WsEvent::Close { code: 4001, reason }) if reason == "bye"));
    let closed = parse_ws_message(&dict(vec![
        ("type", text("websocket.close")),
        ("code", Value::Int(-1)),
        ("reason", Value::Int(1)),
    ]));
    assert!(matches!(closed, Ok(WsEvent::Close { code: 1000, reason }) if reason.is_empty()));
}

fn ws_rejected(message: &Value) -> String {
    match parse_ws_message(message) {
        Ok(event) => panic!("accepted: {event:?}"),
        Err(e) => e.message(),
    }
}

#[test]
fn ws_rules_have_texts() {
    let send = |more: Vec<(&str, Value)>| {
        let mut all = vec![("type", text("websocket.send"))];
        all.extend(more);
        dict(all)
    };
    assert_eq!(ws_rejected(&Value::Null), "send(): message missing 'type'");
    assert_eq!(
        ws_rejected(&dict(vec![("type", Value::Null)])),
        "send(): message 'type' must be str"
    );
    assert_eq!(ws_rejected(&send(vec![])), "send(): websocket.send needs 'text' or 'bytes'");
    assert_eq!(
        ws_rejected(&send(vec![("text", text("a")), ("bytes", Value::Null)])),
        "send(): 'text' and 'bytes' are mutually exclusive"
    );
    assert_eq!(ws_rejected(&send(vec![("text", Value::Null)])), "send(): 'text' must be str");
    assert_eq!(ws_rejected(&send(vec![("bytes", Value::Null)])), "send(): 'bytes' must be bytes");
    assert_eq!(
        ws_rejected(&dict(vec![("type", text("http.response.start"))])),
        "send(): unsupported message type \"http.response.start\""
    );
}

#[test]
fn ws_push_hands_over_or_hands_back() {
    let (tx, mut rx) = tokio::sync::mpsc::channel::<WsEvent>(1);
    let sink = WsSink::new(tx);
    let accept = dict(vec![("type", text("websocket.accept"))]);
    assert!(matches!(sink.push(false, &accept), Ok(None)));
    let close = dict(vec![("type", text("websocket.close")), ("code", Value::Int(4000))]);
    let full = sink.push(false, &close);
    assert!(matches!(full, Ok(Some(WsEvent::Close { code: 4000, .. }))));
    assert!(matches!(rx.try_recv(), Ok(WsEvent::Accept)));
    assert!(rx.try_recv().is_err());
    assert!(matches!(sink.push(true, &accept), Err(PushError::Disconnected)));
    assert!(matches!(
        sink.push(false, &Value::Null),
        Err(PushError::Rejected(SendError::Rule(Rule::MissingType)))
    ));
    drop(rx);
    assert!(matches!(sink.push(false, &accept), Err(PushError::Closed)));
}

fn head(method: &str, headers: Vec<(&str, &str)>) -> RequestHead {
    RequestHead {
        method: method.to_string(),
        version: Version::Http11,
        scheme: None,
        path: "/ws".to_string(),
        query: None,
        headers: headers
            .into_iter()
            .map(|(k, v)| (k.to_string(), v.as_bytes().to_vec()))
            .collect(),
    }
}

#[test]
fn upgrades_are_recognised() {
    let good = vec![("upgrade", "WebSocket"), ("connection", "keep-alive,  UPGRADE ")];
    assert!(is_websocket_upgrade(&head("GET", good.clone())));
    assert!(!is_websocket_upgrade(&head("POST", good)));
    assert!(!is_websocket_upgrade(&head("GET", vec![("upgrade", "websocket")])));
    assert!(!is_websocket_upgrade(&head(
        "GET",
        vec![("upgrade", "h2c"), ("upgrade", "websocket"), ("connection", "upgrade")]
    )));
    assert!(!is_websocket_upgrade(&head(
        "GET",
        vec![("upgrade", "websocket"), ("connection", "close"), ("connection", "upgrade")]
    )));
    assert!(!is_websocket_upgrade(&head(
        "GET",
        vec![("upgrade", "websocket\u{e9}"), ("connection", "upgrade")]
    )));
}

#[test]
fn accept_key_of_the_protocol_example() {
    assert_eq!(accept_key("dGhlIHNhbXBsZSBub25jZQ=="), "s3pPLMBiTxaQ9kYGzzhZRbK+xOo=");
}

#[test]
fn ws_scope_shows_the_handshake() {
    let hs = WsHandshake {
        path: "/a%2Fb".to_string(),
        raw_path: b"/a%2Fb".to_vec(),
        query_string: b"q".to_vec(),
        headers: vec![(b"host".to_vec(), b"x".to_vec())],
        scheme: "ws".to_string(),
        http_version: "1.1".to_string(),
    };
    let scope = build_ws_scope(&hs, true, "c", 1, "s", 2);
    let m = entries(&scope);
    assert_eq!(m.len(), 14);
    assert!(matches!(&m[0].1, Value::Str(s) if s == "websocket"));
    assert!(matches!(&m[4], (k, Value::Str(s)) if k == "path" && s == "/a/b"));
    assert!(matches!(&m[7], (k, Value::Str(s)) if k == "root_path" && s.is_empty()));
    assert!(matches!(&m[12], (k, Value::State) if k == "state"));
    assert!(matches!(&m[13], (k, Value::List(v)) if k == "subprotocols" && v.is_empty()));
}

#[test]
fn inbound_messages() {
    let m = inbound_message(&WsInbound::Connect);
    assert!(matches!(&entries(&m)[0].1, Value::Str(s) if s == "websocket.connect"));
    let m = inbound_message(&WsInbound::Text("hi".to_string()));
    assert!(matches!(&entries(&m)[1], (k, Value::Str(s)) if k == "text" && s == "hi"));
    let m = inbound_message(&WsInbound::Bytes(vec![7]));
    assert!(matches!(&entries(&m)[1], (k, Value::Bytes(b)) if k == "body" && *b == vec![7]));
    assert!(matches!(&entries(&m)[2], (k, Value::Bytes(b)) if k == "bytes" && *b == vec![7]));
    let m = inbound_message(&WsInbound::Disconnect { code: 1006, reason: "x".to_string() });
    assert!(matches!(&entries(&m)[1], (k, Value::Int(1006)) if k == "code"));
    assert!(matches!(&entries(&m)[2], (k, Value::Str(s)) if k == "reason" && s == "x"));
}

#[test]
fn cancellations_are_not_reported() {
    assert!(!is_reportable(Some("CancelledError")));
    assert!(is_reportable(Some("ValueError")));
    assert!(is_reportable(None));
}

fn open() -> Driver {
    let mut d = Driver::new();
    let fx = d.step(Event::SetupDone);
    assert!(fx.monitor);
    assert_eq!(fx.feed, Feed::Connect);
    d.step(Event::AppAccept);
    assert_eq!(d.stage, Stage::Open);
    d
}

fn words(s: &str) -> Payload {
    Payload::Text(s.to_string())
}

fn given(s: &str) -> Reason {
    Reason::Given(s.to_string())
}

fn app_close(code: u16, reason: &str) -> Event {
    Event::AppClose { code, reason: reason.to_string() }
}

#[test]
fn echo_session() {
    let mut d = open();
    assert_eq!(d.step(Event::PeerData(words("in"))).feed, Feed::Data(words("in")));
    let sent = Event::of_app(Some(WsEvent::SendBytes(vec![1, 2])));
    assert_eq!(d.step(sent).frame, Frame::Data(Payload::Bytes(vec![1, 2])));
    d.step(Event::Sent);
    let fx = d.step(Event::PeerPing(vec![7]));
    assert_eq!((fx.frame, fx.feed), (Frame::Pong(vec![7]), Feed::Nothing));
    d.step(Event::Sent);
    assert_eq!(d.step(Event::PeerPong).feed, Feed::Nothing);
    assert_eq!(d.step(Event::AppAccept).frame, Frame::Nothing);
    let fx = d.step(Event::PeerClose { given: Some((1001, "bye".to_string())) });
    assert_eq!(fx.frame, Frame::Close { code: 1001, reason: Reason::Empty });
    assert_eq!(fx.feed, Feed::Disconnect { code: 1001, reason: given("bye") });
    assert!(fx.gone && fx.finish);
    assert_eq!(d.stage, Stage::Done);
}

#[test]
fn application_closes_first() {
    let mut d = open();
    let fx = d.step(app_close(4000, "enough"));
    assert_eq!(fx.frame, Frame::Close { code: 4000, reason: given("enough") });
    assert_eq!(given("enough").text(), "enough");
    assert!(fx.gone && !fx.finish && d.app_closed);
    let fx = d.step(Event::PeerClose { given: None });
    assert_eq!(fx.frame, Frame::Nothing);
    assert_eq!(fx.feed, Feed::Disconnect { code: 1006, reason: Reason::Empty });
}

#[test]
fn application_returns() {
    let mut d = open();
    let fx = d.step(Event::AppGone);
    assert_eq!(fx.frame, Frame::Close { code: 1000, reason: Reason::Empty });
    assert!(fx.gone && fx.finish);
}

#[test]
fn peer_vanishes() {
    let mut d = open();
    let fx = d.step(Event::PeerGone);
    assert_eq!(fx.frame, Frame::Nothing);
    assert_eq!(fx.feed, Feed::Disconnect { code: 1006, reason: Reason::Empty });
    let mut d = open();
    d.step(Event::AppData(words("x")));
    let fx = d.step(Event::SendFailed);
    assert_eq!((fx.frame, fx.feed), (Frame::Nothing, Feed::Nothing));
    assert!(fx.gone && fx.finish);
}

#[test]
fn refusals() {
    let refuse = |event: Event| {
        let mut d = Driver::new();
        d.step(Event::SetupDone);
        let fx = d.step(event);
        assert_eq!(d.stage, Stage::Done);
        assert!(fx.gone);
        fx
    };
    let fx = refuse(app_close(4003, "no"));
    assert_eq!(fx.frame, Frame::Close { code: 4003, reason: given("no") });
    assert!(fx.finish);
    let fx = refuse(Event::AppData(words("x")));
    assert_eq!(fx.frame, Frame::Close { code: 1011, reason: Reason::ExpectedAccept });
    assert_eq!(Reason::ExpectedAccept.text(), "expected accept");
    assert_eq!(
        fx.line.map(|l| l.text()),
        Some("ERROR rustwasgi: app must accept websocket before sending")
    );
    let fx = refuse(Event::AppGone);
    assert_eq!(fx.frame, Frame::Close { code: 1011, reason: Reason::AppFailed });
    assert_eq!(Reason::AppFailed.text(), "app failed");
    assert!(!fx.finish);
    let fx = refuse(Event::AcceptTimeout);
    assert_eq!(fx.frame, Frame::Close { code: 1011, reason: Reason::AcceptTimeout });
    assert_eq!(Reason::AcceptTimeout.text(), "accept timeout");
    assert_eq!(fx.line, Some(Line::AcceptTimedOut));
    let mut d = Driver::new();
    let fx = d.step(Event::SetupFailed);
    assert_eq!(fx.frame, Frame::Close { code: 1011, reason: Reason::InternalError });
    assert_eq!(Reason::InternalError.text(), "internal error");
    assert!(!fx.finish);
}

#[test]
fn events_and_feeds_carry_their_content() {
    let text = Event::of_app(Some(WsEvent::SendText("a".to_string())));
    assert!(matches!(text, Event::AppData(p) if p == words("a")));
    let close = WsEvent::Close { code: 4001, reason: "r".to_string() };
    let close = Event::of_app(Some(close));
    assert!(matches!(close, Event::AppClose { code: 4001, reason } if reason == "r"));
    assert!(matches!(Event::of_app(Some(WsEvent::Accept)), Event::AppAccept));
    assert!(matches!(Event::of_app(None), Event::AppGone));
    assert!(Feed::Nothing.inbound().is_none());
    assert!(matches!(Feed::Connect.inbound(), Some(WsInbound::Connect)));
    assert!(matches!(Feed::Data(words("a")).inbound(), Some(WsInbound::Text(s)) if s == "a"));
    let bytes = Feed::Data(Payload::Bytes(vec![3]));
    assert!(matches!(bytes.inbound(), Some(WsInbound::Bytes(b)) if b == vec![3]));
    let gone = Feed::Disconnect { code: 1006, reason: given("r") };
    assert!(matches!(
        gone.inbound(),
        Some(WsInbound::Disconnect { code: 1006, reason }) if reason == "r"
    ));
}

#[test]
fn ws_ignores_unknown_keys() {
    let sent = parse_ws_message(&dict(vec![
        ("status", Value::Int(1)),
        ("type", text("websocket.send")),
        ("body", Value::Null),
        ("text", text("hello")),
        ("more", Value::Other),
    ]));
    assert!(matches!(sent, Ok(WsEvent::SendText(s)) if s == "hello"));
}
