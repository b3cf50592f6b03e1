//! The rules of the HTTP server: what a connection is told, how a request
//! becomes a call, and when a worker stops.

pub mod exchange;
pub mod worker;

use vstd::prelude::*;
use vstd::utf8::*;
use crate::asgi;
use crate::asgi::{
    from_utf8_lossy, percent_decode, quote, request_message, terminal_message, QueuePut,
    RequestData,
};
use crate::headers;
use crate::headers::{has_body, raw_headers, RequestHead};
use crate::metrics;
use crate::metrics::Metrics;
use crate::text;
use crate::text::{cat, to_decimal};
use crate::value;
use crate::value::{copy_bytes, Term, Value};
use crate::ws;
use crate::ws::{accept_key, header_string, is_websocket_upgrade, WsHandshake};

verus! {

/// What one worker goes by. Times are in seconds.
#[derive(Debug)]
pub struct ServeConfig {
    pub app_spec: String,
    pub root_path: String,
    /// Requests after which the worker stops; 0 for no limit.
    pub max_requests: usize,
    pub graceful_timeout: u64,
    pub heartbeat_interval: u64,
    pub access_log: bool,
    /// How long a connection may take to send the head of a request; 0 leaves
    /// that to the HTTP implementation.
    pub keep_alive_secs: u64,
    pub redirect_http_to_https: bool,
}

/// A complete response with a text for a body.
#[derive(Debug)]
pub struct PlainResponse {
    pub status: u16,
    pub headers: Vec<(String, String)>,
    pub body: String,
}

/// The content of a list of headers that are texts.
pub open spec fn text_pairs(headers: Seq<(String, String)>) -> Seq<(Seq<char>, Seq<char>)> {
    headers.map_values(|h: (String, String)| (h.0@, h.1@))
}

/// The headers of a plain text.
pub open spec fn text_headers(body: Seq<char>) -> Seq<(Seq<char>, Seq<char>)> {
    seq![
        ("content-type"@, "text/plain; charset=utf-8"@),
        ("content-length"@, text::decimal(encode_utf8(body).len())),
    ]
}

/// The headers of a text tell its length in bytes and that it is a text.
pub proof fn text_headers_tell_the_length(body: Seq<char>)
    ensures
        first_text(text_headers(body), "content-length"@) == Some(
            text::decimal(encode_utf8(body).len()),
        ),
        first_text(text_headers(body), "content-type"@) == Some("text/plain; charset=utf-8"@),
        text_headers(body).len() == 2,
{
    reveal_strlit("content-length");
    reveal_strlit("content-type");
    assert("content-length"@.len() == 14 && "content-type"@.len() == 12);
    let all = text_headers(body);
    assert(all.skip(1)[0] == all[1]);
    assert(first_text(all, "content-length"@) == first_text(all.skip(1), "content-length"@));
}

/// A response whose body is a line of text.
pub fn status_response(status: u16, text: &str) -> (r: PlainResponse)
    ensures
        r.status == status,
        r.body@ == text@ + "\n"@,
        text_pairs(r.headers@) == text_headers(r.body@),
{
    let body = cat(text, "\n");
    let length: u64 = body.as_str().as_bytes().len() as u64;
    let mut headers: Vec<(String, String)> = Vec::new();
    headers.push(("content-type".to_string(), "text/plain; charset=utf-8".to_string()));
    headers.push(("content-length".to_string(), to_decimal(length)));
    assert(text_pairs(headers@) =~= text_headers(body@));
    PlainResponse { status, headers, body }
}

/// The response where a call failed.
pub fn failure_response() -> (r: PlainResponse)
    ensures
        r.status == 500,
        r.body@ == "Internal Server Error"@ + "\n"@,
        text_pairs(r.headers@) == text_headers(r.body@),
{
    status_response(500, "Internal Server Error")
}

/// Whether a byte may stand in a header's name: a letter, a digit, or one of
/// ``! # $ % & ' * + - . ^ _ ` | ~``.
pub open spec fn is_token_byte(b: u8) -> bool {
    ||| 48 <= b <= 57
    ||| 65 <= b <= 90
    ||| 94 <= b <= 122
    ||| 35 <= b <= 39
    ||| b == 33 || b == 42 || b == 43 || b == 45 || b == 46 || b == 124 || b == 126
}

/// Whether bytes may be a header's name.
pub open spec fn is_name(name: Seq<u8>) -> bool {
    1 <= name.len() <= 65535 && forall|i: int|
        0 <= i < name.len() ==> is_token_byte(#[trigger] name[i])
}

/// A letter of a header's name in lower case.
pub open spec fn lower_byte(b: u8) -> u8 {
    if 65 <= b <= 90 {
        (b + 32) as u8
    } else {
        b
    }
}

/// A header's name in lower case.
pub open spec fn normal_name(name: Seq<u8>) -> Seq<u8> {
    name.map_values(|b: u8| lower_byte(b))
}

/// `http::HeaderName::from_bytes`: the name in lower case, or nothing where
/// the bytes are no name: where they are none or too many, or one of them may
/// not stand in a name.
#[verifier::external_body]
fn header_name(name: &[u8]) -> (r: Option<Vec<u8>>)
    ensures
        r is Some <==> is_name(name@),
        r matches Some(n) ==> n@ == normal_name(name@),
{
    match http::HeaderName::from_bytes(name) {
        Ok(n) => Some(n.as_str().as_bytes().to_vec()),
        Err(_) => None,
    }
}

/// Whether a byte may stand in a header's value.
pub open spec fn is_value_byte(b: u8) -> bool {
    32 <= b && b != 127 || b == 9
}

/// Whether bytes may be a header's value.
pub open spec fn is_value(value: Seq<u8>) -> bool {
    forall|i: int| 0 <= i < value.len() ==> is_value_byte(#[trigger] value[i])
}

/// A name has one byte at least, and every byte of it may stand in a name; a
/// value may be empty, and every byte of it may stand in a value.
pub proof fn names_and_values_go_by_bytes(name: Seq<u8>, value: Seq<u8>, b: u8)
    ensures
        !is_name(Seq::empty()),
        is_name(seq![b]) <==> is_token_byte(b),
        1 <= name.len() && name.len() < 65535 ==> (is_name(name.push(b)) <==> is_name(name)
            && is_token_byte(b)),
        65535 <= name.len() ==> !is_name(name.push(b)),
        is_value(Seq::empty()),
        is_value(value.push(b)) <==> is_value(value) && is_value_byte(b),
{
    assert(seq![b][0] == b);
    if is_name(name.push(b)) {
        assert(name.push(b)[name.len() as int] == b);
        assert forall|i: int| 0 <= i < name.len() implies is_token_byte(#[trigger] name[i]) by {
            assert(name.push(b)[i] == name[i]);
        }
    }
    if is_value(value.push(b)) {
        assert(value.push(b)[value.len() as int] == b);
        assert forall|i: int| 0 <= i < value.len() implies is_value_byte(#[trigger] value[i]) by {
            assert(value.push(b)[i] == value[i]);
        }
    }
}

/// `http::HeaderValue::from_bytes`: the value itself, or nothing where a byte
/// of it is a control character other than the tab.
#[verifier::external_body]
fn header_value(value: &[u8]) -> (r: Option<Vec<u8>>)
    ensures
        r is Some <==> is_value(value@),
        r matches Some(v) ==> v@ == value@,
{
    match http::HeaderValue::from_bytes(value) {
        Ok(v) => Some(v.as_bytes().to_vec()),
        Err(_) => None,
    }
}

/// `http::StatusCode::from_u16`: the status itself, where it has three digits.
#[verifier::external_body]
fn status_code(status: u16) -> (r: Option<u16>)
    ensures
        r == if 100 <= status <= 999 {
            Some(status)
        } else {
            None
        },
{
    match http::StatusCode::from_u16(status) {
        Ok(code) => Some(code.as_u16()),
        Err(_) => None,
    }
}

/// The head of a response: the headers that are kept, and a line for each
/// that is not.
#[derive(Debug)]
pub struct ResponseHead {
    pub status: u16,
    pub headers: Vec<(Vec<u8>, Vec<u8>)>,
    pub warnings: Vec<String>,
}

/// Whether a header can be sent.
pub open spec fn sendable(h: (Seq<u8>, Seq<u8>)) -> bool {
    is_name(h.0) && is_value(h.1)
}

/// The headers that can be sent, in order and with names in lower case.
pub open spec fn sent_headers(list: Seq<(Seq<u8>, Seq<u8>)>) -> Seq<(Seq<u8>, Seq<u8>)>
    decreases list.len(),
{
    if list.len() == 0 {
        Seq::empty()
    } else {
        let rest = sent_headers(list.drop_last());
        if sendable(list.last()) {
            rest.push((normal_name(list.last().0), list.last().1))
        } else {
            rest
        }
    }
}

/// A line for each header that cannot be sent.
pub open spec fn skip_warnings(list: Seq<(Seq<u8>, Seq<u8>)>) -> Seq<Seq<char>>
    decreases list.len(),
{
    if list.len() == 0 {
        Seq::empty()
    } else {
        let rest = skip_warnings(list.drop_last());
        if sendable(list.last()) {
            rest
        } else {
            rest.push(
                "WARN rustwasgi: skipping invalid response header "@ + asgi::quoted(
                    asgi::spelled(list.last().0),
                ),
            )
        }
    }
}

/// A byte stands in a header's name if it is a letter, a digit or one of some
/// marks; no blank, no colon, no control character and nothing beyond ASCII
/// does. In a value every byte stands but control characters, the tab aside.
pub proof fn names_and_values_are_safe(b: u8)
    ensures
        97 <= b <= 122 || 65 <= b <= 90 || 48 <= b <= 57 || b == 45 || b == 95 ==> is_token_byte(
            b,
        ),
        b <= 32 || b >= 127 || b == 58 || b == 44 || b == 59 || b == 34 || b == 40 || b == 41 || b
            == 47 || b == 60 || b == 61 || b == 62 || b == 63 || b == 64 || b == 91 || b == 92 || b
            == 93 || b == 123 || b == 125 ==> !is_token_byte(b),
        is_value_byte(b) <==> !(b < 32 && b != 9) && b != 127,
{
}

/// A header that can be sent is sent as it is, in its place, its name in lower
/// case; one that cannot is left out and leaves the others alone.
pub proof fn headers_are_sent_one_by_one(
    list: Seq<(Seq<u8>, Seq<u8>)>,
    h: (Seq<u8>, Seq<u8>),
)
    ensures
        is_name(h.0) && is_value(h.1) ==> sent_headers(list.push(h)) == sent_headers(list).push(
            (h.0.map_values(|b: u8| if 65 <= b <= 90 { (b + 32) as u8 } else { b }), h.1),
        ) && skip_warnings(list.push(h)) == skip_warnings(list),
        !(is_name(h.0) && is_value(h.1)) ==> sent_headers(list.push(h)) == sent_headers(list)
            && skip_warnings(list.push(h)).len() == skip_warnings(list).len() + 1,
{
    assert(list.push(h).drop_last() =~= list);
    assert(normal_name(h.0) =~= h.0.map_values(
        |b: u8| if 65 <= b <= 90 { (b + 32) as u8 } else { b },
    ));
}

/// Headers whose names are in lower case and that all can be sent are sent
/// unchanged, in order and with duplicates, without a warning.
pub proof fn proper_headers_are_sent(list: Seq<(Seq<u8>, Seq<u8>)>)
    requires
        forall|i: int|
            0 <= i < list.len() ==> is_name((#[trigger] list[i]).0) && is_value(list[i].1),
        forall|i: int, k: int|
            0 <= i < list.len() && 0 <= k < list[i].0.len() ==> !(65 <= #[trigger] list[i].0[k]
                <= 90),
    ensures
        sent_headers(list) == list,
        skip_warnings(list).len() == 0,
    decreases list.len(),
{
    if list.len() > 0 {
        let before = list.drop_last();
        assert forall|i: int| 0 <= i < before.len() implies is_name((#[trigger] before[i]).0)
            && is_value(before[i].1) by {
            assert(before[i] == list[i]);
        }
        assert forall|i: int, k: int|
            0 <= i < before.len() && 0 <= k < before[i].0.len() implies !(65
            <= #[trigger] before[i].0[k] <= 90) by {
            assert(before[i] == list[i]);
            assert(!(65 <= list[i].0[k] <= 90));
        }
        proper_headers_are_sent(before);
        let last = list[list.len() - 1];
        assert(is_name(last.0) && is_value(last.1));
        assert(normal_name(last.0) =~= last.0) by {
            assert forall|k: int| 0 <= k < last.0.len() implies lower_byte(last.0[k])
                == last.0[k] by {
                assert(!(65 <= list[list.len() - 1].0[k] <= 90));
            }
        }
        assert(sent_headers(list) =~= list);
    } else {
        assert(sent_headers(list) =~= list);
    }
}

/// The head of a response with the status and the headers that the
/// application gave. A header that cannot be sent is left out, with a warning.
pub fn response_head(status: u16, headers: &Vec<(Vec<u8>, Vec<u8>)>) -> (r: ResponseHead)
    ensures
        r.status == if 100 <= status <= 999 {
            status
        } else {
            500
        },
        asgi::header_views(r.headers@) == sent_headers(asgi::header_views(headers@)),
        text::texts(r.warnings@) == skip_warnings(asgi::header_views(headers@)),
{
    let code: u16 = match status_code(status) {
        Some(c) => c,
        None => 500,
    };
    let ghost all = asgi::header_views(headers@);
    let mut kept: Vec<(Vec<u8>, Vec<u8>)> = Vec::new();
    let mut warnings: Vec<String> = Vec::new();
    let mut i: usize = 0;
    proof {
        assert(asgi::header_views(kept@) =~= Seq::empty());
        assert(text::texts(warnings@) =~= Seq::empty());
    }
    while i < headers.len()
        invariant
            i <= headers@.len(),
            all == asgi::header_views(headers@),
            asgi::header_views(kept@) == sent_headers(all.take(i as int)),
            text::texts(warnings@) == skip_warnings(all.take(i as int)),
        decreases headers@.len() - i,
    {
        let ghost kept_before = kept@;
        let ghost warned_before = warnings@;
        proof {
            assert(all.take(i + 1).drop_last() =~= all.take(i as int));
            assert(all.take(i + 1).last() == (headers@[i as int].0@, headers@[i as int].1@));
        }
        match (header_name(headers[i].0.as_slice()), header_value(headers[i].1.as_slice())) {
            (Some(name), Some(value)) => {
                kept.push((name, value));
                proof {
                    assert(asgi::header_views(kept@) =~= asgi::header_views(kept_before).push(
                        (name@, value@),
                    ));
                }
            },
            _ => {
                let shown = quote(from_utf8_lossy(headers[i].0.as_slice()).as_str());
                let line = cat(
                    "WARN rustwasgi: skipping invalid response header ",
                    shown.as_str(),
                );
                warnings.push(line);
                proof {
                    assert(text::texts(warnings@) =~= text::texts(warned_before).push(line@));
                }
            },
        }
        i += 1;
    }
    assert(all.take(i as int) =~= all);
    ResponseHead { status: code, headers: kept, warnings }
}

/// The headers of a response never number more than the application gave, and
/// every header is either sent or warned of.
pub proof fn every_header_accounted_for(list: Seq<(Seq<u8>, Seq<u8>)>)
    ensures
        sent_headers(list).len() + skip_warnings(list).len() == list.len(),
    decreases list.len(),
{
    if list.len() > 0 {
        every_header_accounted_for(list.drop_last());
    }
}

/// The bytes of a text that may be missing.
pub open spec fn optional_bytes(s: Option<String>) -> Seq<u8> {
    match s {
        Some(t) => encode_utf8(t@),
        None => Seq::empty(),
    }
}

fn bytes_or_empty(s: &Option<String>) -> (r: Vec<u8>)
    ensures
        r@ == optional_bytes(*s),
{
    match s {
        Some(t) => copy_bytes(t.as_str().as_bytes()),
        None => Vec::new(),
    }
}

/// What the application is told of a request: the path with its escapes
/// resolved, the raw path as it came, every header, and whether a body may
/// follow.
pub fn request_data(
    head: &RequestHead,
    root_path: &str,
    client_host: &str,
    client_port: u16,
    server_host: &str,
    server_port: u16,
) -> (r: RequestData)
    ensures
        r.method@ == head.method@,
        r.http_version@ == headers::version_name(head.version),
        r.scheme@ == match head.scheme {
            Some(s) => s@,
            None => "http"@,
        },
        r.path@ == asgi::spelled(asgi::unescaped(encode_utf8(head.path@))),
        r.raw_path@ == encode_utf8(head.path@),
        r.query_string@ == optional_bytes(head.query),
        r.root_path@ == root_path@,
        asgi::header_views(r.headers@) == headers::raw_pairs(headers::pairs(head.headers@)),
        r.has_body == headers::announced(headers::pairs(head.headers@)),
        r.client_host@ == client_host@,
        r.client_port == client_port,
        r.server_host@ == server_host@,
        r.server_port == server_port,
{
    RequestData {
        method: head.method.clone(),
        http_version: head.version.name().to_string(),
        scheme: match &head.scheme {
            Some(s) => s.clone(),
            None => "http".to_string(),
        },
        path: percent_decode(head.path.as_str()),
        raw_path: copy_bytes(head.path.as_str().as_bytes()),
        query_string: bytes_or_empty(&head.query),
        root_path: root_path.to_string(),
        headers: raw_headers(&head.headers),
        has_body: has_body(&head.headers),
        client_host: client_host.to_string(),
        client_port,
        server_host: server_host.to_string(),
        server_port,
    }
}

/// The query as the access log shows it.
pub fn query_for_log(data: &RequestData) -> (r: String)
    ensures
        r@ == asgi::spelled(data.query_string@),
{
    from_utf8_lossy(data.query_string.as_slice())
}

/// Who handles a request.
#[derive(Debug, Clone, Copy, PartialEq, Eq, Structural)]
pub enum Route {
    Http,
    WebSocket,
}

/// Who handles a request: one that asks for an upgrade becomes a WebSocket.
pub fn handle_request(head: &RequestHead) -> (r: Route)
    ensures
        r == if ws::asks_upgrade(*head) {
            Route::WebSocket
        } else {
            Route::Http
        },
{
    if is_websocket_upgrade(head) {
        Route::WebSocket
    } else {
        Route::Http
    }
}

/// The answer to a request for an upgrade.
#[derive(Debug)]
pub enum Upgrade {
    /// The request lacks its key.
    Refused(PlainResponse),
    /// The connection becomes a WebSocket.
    Switch { response: PlainResponse, handshake: WsHandshake },
}

/// The client's key: the text of the first `sec-websocket-key` header, or
/// nothing.
pub open spec fn client_key(head: RequestHead) -> Seq<char> {
    match ws::header_text(head, "sec-websocket-key"@) {
        Some(k) => k,
        None => Seq::empty(),
    }
}

/// The headers of the response that switches protocols.
pub open spec fn switch_headers(key: Seq<char>) -> Seq<(Seq<char>, Seq<char>)> {
    seq![
        ("upgrade"@, "websocket"@),
        ("connection"@, "Upgrade"@),
        ("sec-websocket-accept"@, ws::derived_key(encode_utf8(key))),
    ]
}

/// The first value under a name.
pub open spec fn first_text(headers: Seq<(Seq<char>, Seq<char>)>, name: Seq<char>) -> Option<
    Seq<char>,
>
    decreases headers.len(),
{
    if headers.len() == 0 {
        None
    } else if headers[0].0 == name {
        Some(headers[0].1)
    } else {
        first_text(headers.skip(1), name)
    }
}

/// Whether the headers of a response accept the upgrade that was asked for:
/// what a request has to say to ask for it, they say in answer, and they prove
/// that the client's key was understood.
pub open spec fn accepts_upgrade(headers: Seq<(Seq<char>, Seq<char>)>, key: Seq<char>) -> bool {
    &&& first_text(headers, "connection"@) matches Some(c) && ws::lists_upgrade(c)
    &&& first_text(headers, "upgrade"@) matches Some(u) && text::lower(u) == "websocket"@
    &&& first_text(headers, "sec-websocket-accept"@) == Some(ws::derived_key(encode_utf8(key)))
}

/// The response that switches protocols accepts the upgrade, for every key: its
/// headers would ask for an upgrade, were they those of a request.
pub proof fn switch_accepts_the_upgrade(key: Seq<char>, head: RequestHead)
    ensures
        accepts_upgrade(switch_headers(key), key),
        first_text(switch_headers(key), "connection"@) == Some("Upgrade"@),
        first_text(switch_headers(key), "upgrade"@) == Some("websocket"@),
        head.method@ == "GET"@ && headers::pairs(head.headers@) == switch_headers(key).map_values(
            |h: (Seq<char>, Seq<char>)| (h.0, headers::ascii(h.1)),
        ) ==> ws::asks_upgrade(head),
{
    reveal_strlit("connection");
    reveal_strlit("upgrade");
    reveal_strlit("sec-websocket-accept");
    assert("connection"@.len() == 10 && "upgrade"@.len() == 7);
    assert("sec-websocket-accept"@.len() == 20);
    ws::plain_upgrade();
    let all = switch_headers(key);
    let one = all.skip(1);
    let two = one.skip(1);
    assert(one[0] == all[1] && two[0] == all[2]);
    assert(first_text(all, "connection"@) == first_text(one, "connection"@));
    assert(first_text(all, "sec-websocket-accept"@) == first_text(one, "sec-websocket-accept"@));
    assert(first_text(one, "sec-websocket-accept"@) == first_text(two, "sec-websocket-accept"@));
    let raw = all.map_values(|h: (Seq<char>, Seq<char>)| (h.0, headers::ascii(h.1)));
    assert(raw.skip(1)[0] == raw[1]);
    assert(headers::first_value(raw, "upgrade"@) == Some(headers::ascii("websocket"@)));
    assert(headers::first_value(raw, "connection"@) == headers::first_value(
        raw.skip(1),
        "connection"@,
    ));
}

/// What is kept of a request that became a WebSocket.
pub open spec fn is_handshake_of(hs: WsHandshake, head: RequestHead) -> bool {
    &&& hs.path@ == head.path@
    &&& hs.raw_path@ == encode_utf8(head.path@)
    &&& hs.query_string@ == optional_bytes(head.query)
    &&& asgi::header_views(hs.headers@) == headers::raw_pairs(headers::pairs(head.headers@))
    &&& hs.scheme@ == "ws"@
    &&& hs.http_version@ == headers::upgrade_version_name(head.version)
}

/// A WebSocket's scope shows the request that became one: its path, its query
/// and its headers as they came.
pub proof fn handshake_shows_the_request(
    hs: WsHandshake,
    head: RequestHead,
    has_state: bool,
    client: (Seq<char>, u16),
    server: (Seq<char>, u16),
)
    requires
        is_handshake_of(hs, head),
    ensures
        ({
            let scope = asgi::entries(ws::ws_scope(hs, has_state, client, server));
            &&& value::lookup(scope, "raw_path"@) == Some(Term::Bytes(encode_utf8(head.path@)))
            &&& value::lookup(scope, "path"@) == Some(
                Term::Str(asgi::spelled(asgi::unescaped(encode_utf8(head.path@)))),
            )
            &&& value::lookup(scope, "query_string"@) == Some(
                Term::Bytes(
                    match head.query {
                        Some(q) => encode_utf8(q@),
                        None => Seq::empty(),
                    },
                ),
            )
            &&& value::lookup(scope, "scheme"@) == Some(Term::Str("ws"@))
            &&& value::lookup(scope, "headers"@) matches Some(Term::List(list)) && list.len()
                == head.headers@.len() && forall|i: int|
                0 <= i < list.len() ==> (#[trigger] list[i]) == Term::Tuple(
                    seq![
                        Term::Bytes(encode_utf8(head.headers@[i].0@)),
                        Term::Bytes(head.headers@[i].1@),
                    ],
                )
        }),
{
    ws::scope_shows_the_handshake(hs, has_state, client, server);
    let views = asgi::header_views(hs.headers@);
    assert(views.len() == hs.headers@.len());
    assert forall|i: int| 0 <= i < head.headers@.len() implies hs.headers@[i].0@ == encode_utf8(
        head.headers@[i].0@,
    ) && hs.headers@[i].1@ == #[trigger] head.headers@[i].1@ by {
        assert(views[i] == headers::raw_pairs(headers::pairs(head.headers@))[i]);
    }
}

/// The client's key is the text of its first `sec-websocket-key` header, and
/// nothing where that is missing or not visible.
pub proof fn client_key_is_its_header(head: RequestHead, key: Seq<char>)
    ensures
        ({
            let given = headers::first_value(
                headers::pairs(head.headers@),
                "sec-websocket-key"@,
            );
            &&& given is Some && headers::visible(given->0) == Some(key) ==> client_key(head) == key
            &&& given is None ==> client_key(head).len() == 0
            &&& given is Some && headers::visible(given->0) is None ==> client_key(head).len() == 0
        }),
{
}

/// The answer to a request for an upgrade: `101` with the key that proves the
/// handshake, or `400` where the client sent no key. The `101` response goes
/// out before the application has been asked.
pub fn handle_websocket_upgrade(head: &RequestHead) -> (r: Upgrade)
    ensures
        match r {
            Upgrade::Refused(response) => {
                &&& client_key(*head).len() == 0
                &&& response.status == 400
                &&& response.body@ == "Missing Sec-WebSocket-Key"@ + "\n"@
                &&& text_pairs(response.headers@) == text_headers(response.body@)
            },
            Upgrade::Switch { response, handshake } => {
                &&& client_key(*head).len() > 0
                &&& response.status == 101
                &&& response.body@.len() == 0
                &&& text_pairs(response.headers@) == switch_headers(client_key(*head))
                &&& accepts_upgrade(text_pairs(response.headers@), client_key(*head))
                &&& first_text(text_pairs(response.headers@), "connection"@) == Some("Upgrade"@)
                &&& first_text(text_pairs(response.headers@), "upgrade"@) == Some("websocket"@)
                &&& is_handshake_of(handshake, *head)
            },
        },
{
    let key = match header_string(head, "sec-websocket-key") {
        Some(k) => k,
        None => String::new(),
    };
    if key.as_str().is_empty() {
        return Upgrade::Refused(status_response(400, "Missing Sec-WebSocket-Key"));
    }
    let handshake = WsHandshake {
        path: head.path.clone(),
        raw_path: copy_bytes(head.path.as_str().as_bytes()),
        query_string: bytes_or_empty(&head.query),
        headers: raw_headers(&head.headers),
        scheme: "ws".to_string(),
        http_version: head.version.upgrade_name().to_string(),
    };
    let mut headers: Vec<(String, String)> = Vec::new();
    headers.push(("upgrade".to_string(), "websocket".to_string()));
    headers.push(("connection".to_string(), "Upgrade".to_string()));
    headers.push(("sec-websocket-accept".to_string(), accept_key(key.as_str())));
    proof {
        assert(text_pairs(headers@) =~= switch_headers(key@));
        switch_accepts_the_upgrade(key@, *head);
    }
    Upgrade::Switch {
        response: PlainResponse { status: 101, headers, body: String::new() },
        handshake,
    }
}

/// One frame of a request's body.
#[derive(Debug)]
pub enum BodyFrame {
    /// Bytes of the body, perhaps none.
    Data(Vec<u8>),
    /// Trailers and the like.
    Meta,
    /// The body is over, or broken off.
    End,
}

/// What is to be put into the application's queue.
pub enum FeedPlan {
    /// Nothing; feeding goes on.
    Skip,
    /// A chunk.
    Chunk(Value),
    /// The terminal message.
    Terminal(Value),
}

/// What one frame of the request's body becomes: a chunk that is not empty is
/// handed over as such, the end as the terminal message, anything else is
/// passed over.
pub fn feed_step(metrics: &mut Metrics, frame: BodyFrame) -> (r: FeedPlan)
    requires
        old(metrics)@.sized(),
    ensures
        final(metrics)@.sized(),
        match frame {
            BodyFrame::Data(data) => if data@.len() > 0 {
                &&& r matches FeedPlan::Chunk(v) && v.term() == asgi::request_term(data@, true)
                &&& final(metrics)@ == old(metrics)@.counted(metrics::C_FEED_CHUNKS as int)
            } else {
                r is Skip && final(metrics)@ == old(metrics)@
            },
            BodyFrame::Meta => r is Skip && final(metrics)@ == old(metrics)@,
            BodyFrame::End => {
                &&& r matches FeedPlan::Terminal(v) && v.term() == asgi::request_term(
                    Seq::empty(),
                    false,
                )
                &&& final(metrics)@ == old(metrics)@
            },
        },
{
    match frame {
        BodyFrame::Data(data) => {
            if data.len() > 0 {
                metrics::inc(metrics, metrics::C_FEED_CHUNKS);
                FeedPlan::Chunk(request_message(&data, true))
            } else {
                FeedPlan::Skip
            }
        },
        BodyFrame::Meta => FeedPlan::Skip,
        BodyFrame::End => FeedPlan::Terminal(terminal_message()),
    }
}

/// What follows once a plan was carried out: whether feeding goes on, and
/// whether the application is to be told that the client is gone. `put` is
/// what became of the message, if there was one.
pub fn feed_outcome(plan: &FeedPlan, put: QueuePut) -> (r: (bool, bool))
    ensures
        r.0 == (plan is Skip || plan is Chunk && put is Done),
        r.1 == (plan is Chunk && !(put is Done)),
{
    match plan {
        FeedPlan::Skip => (true, false),
        FeedPlan::Chunk(_) => match put {
            QueuePut::Done => (true, false),
            _ => (false, true),
        },
        FeedPlan::Terminal(_) => (false, false),
    }
}

/// Where an entry of the access log goes.
#[derive(Debug, Clone, Copy, PartialEq, Eq, Structural)]
pub enum AccessPlan {
    Nowhere,
    /// To the worker's hook.
    Hook,
    /// To the standard error.
    Stderr,
}

/// Where an entry goes: to the hook where there is one, else to the standard
/// error if that is asked for.
pub open spec fn access_plan(has_hook: bool, enabled: bool) -> AccessPlan {
    if has_hook {
        AccessPlan::Hook
    } else if enabled {
        AccessPlan::Stderr
    } else {
        AccessPlan::Nowhere
    }
}

/// A hook gets every entry; without one an entry is printed if that was asked
/// for, and is never lost where it was.
pub proof fn hook_comes_first(has_hook: bool, enabled: bool)
    ensures
        access_plan(has_hook, enabled) is Hook <==> has_hook,
        access_plan(has_hook, enabled) is Nowhere <==> !has_hook && !enabled,
{
}

/// Where an entry of the access log goes, once a response has streamed.
pub fn log_access_task(has_hook: bool, enabled: bool) -> (r: AccessPlan)
    ensures
        r == access_plan(has_hook, enabled),
{
    if has_hook {
        AccessPlan::Hook
    } else if enabled {
        AccessPlan::Stderr
    } else {
        AccessPlan::Nowhere
    }
}

/// Where an entry of the access log goes for a call that failed; the
/// attachment to the interpreter is counted where there is one.
pub fn log_access(metrics: &mut Metrics, has_hook: bool, enabled: bool) -> (r: AccessPlan)
    requires
        old(metrics)@.sized(),
    ensures
        final(metrics)@.sized(),
        r == access_plan(has_hook, enabled),
        final(metrics)@ == if r is Nowhere {
            old(metrics)@
        } else {
            old(metrics)@.counted(metrics::C_ATTACH as int)
        },
{
    let plan = log_access_task(has_hook, enabled);
    if !matches!(plan, AccessPlan::Nowhere) {
        metrics::inc(metrics, metrics::C_ATTACH);
    }
    plan
}

/// One line of the access log. `duration` is the duration in milliseconds, as
/// a text.
pub fn access_line(
    client: &str,
    method: &str,
    path: &str,
    status: u16,
    size: u64,
    duration: &str,
) -> (r: String)
    ensures
        r@ == "INFO rustwasgi: "@ + client@ + " \""@ + method@ + " "@ + path@ + "\" "@
            + text::decimal(status as nat) + " "@ + text::decimal(size as nat) + " "@ + duration@
            + "ms"@,
{
    let a = cat("INFO rustwasgi: ", client);
    let b = cat(a.as_str(), " \"");
    let c = cat(b.as_str(), method);
    let d = cat(c.as_str(), " ");
    let e = cat(d.as_str(), path);
    let f = cat(e.as_str(), "\" ");
    let g = cat(f.as_str(), to_decimal(status as u64).as_str());
    let h = cat(g.as_str(), " ");
    let i = cat(h.as_str(), to_decimal(size).as_str());
    let j = cat(i.as_str(), " ");
    let k = cat(j.as_str(), duration);
    cat(k.as_str(), "ms")
}

} // verus!
