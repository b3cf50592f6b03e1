//! WebSockets: the messages of the application, the upgrade handshake, the
//! scope, and the driver of one connection.
//!
//! The `101` response goes out before the application has accepted; where it
//! then refuses, the connection is closed at once. Pings are answered here and
//! never reach the application.

pub mod driver;

use vstd::prelude::*;
use vstd::utf8::*;
use tokio::sync::mpsc::error::TrySendError;
use tokio::sync::mpsc::Sender;
use crate::asgi;
use crate::asgi::{
    address_value, bytes_value, empty_dict, entry, headers_value, percent_decode, state_value,
    text_value, version_value, PushError, Rule, SendError, SendErrorView,
};
use crate::channel::Offer;
use crate::headers;
use crate::headers::{first_header, visible_text, RequestHead};
use crate::text;
use crate::text::{contains, split_on, str_eq, to_lower, trim};
use crate::value;
use crate::value::{get_item, Term, Value};

verus! {

/// Bound of the channel from the application to the driver.
pub const WS_CHANNEL_BOUND: usize = 16;

/// Seconds that the application may take to accept.
pub const ACCEPT_TIMEOUT: u64 = 30;

/// One event of the application.
#[derive(Debug)]
pub enum WsEvent {
    Accept,
    SendText(String),
    SendBytes(Vec<u8>),
    Close { code: u16, reason: String },
}

/// The content of a [`WsEvent`].
pub enum WsEventView {
    Accept,
    SendText(Seq<char>),
    SendBytes(Seq<u8>),
    Close { code: int, reason: Seq<char> },
}

impl View for WsEvent {
    type V = WsEventView;

    open spec fn view(&self) -> WsEventView {
        match self {
            WsEvent::Accept => WsEventView::Accept,
            WsEvent::SendText(s) => WsEventView::SendText(s@),
            WsEvent::SendBytes(b) => WsEventView::SendBytes(b@),
            WsEvent::Close { code, reason } => WsEventView::Close {
                code: *code as int,
                reason: reason@,
            },
        }
    }
}

/// What a `websocket.send` message says: a text or a byte string, not both.
pub open spec fn payload(m: Seq<(Seq<char>, Term)>) -> Result<WsEventView, SendErrorView> {
    match (value::lookup(m, "text"@), value::lookup(m, "bytes"@)) {
        (Some(t), None) => match value::as_text(t) {
            Some(s) => Ok(WsEventView::SendText(s)),
            None => Err(SendErrorView::Rule(Rule::TextNotText)),
        },
        (None, Some(b)) => match value::as_byte_string(b) {
            Some(data) => Ok(WsEventView::SendBytes(data)),
            None => Err(SendErrorView::Rule(Rule::BytesNotBytes)),
        },
        (Some(_), Some(_)) => Err(SendErrorView::Rule(Rule::TextAndBytes)),
        (None, None) => Err(SendErrorView::Rule(Rule::NoPayload)),
    }
}

/// What a `websocket.close` message says. Without a proper code it is 1000,
/// without a proper reason it is empty.
pub open spec fn closing(m: Seq<(Seq<char>, Term)>) -> WsEventView {
    WsEventView::Close {
        code: match value::lookup(m, "code"@) {
            Some(t) => match value::as_u16(t) {
                Some(n) => n,
                None => 1000,
            },
            None => 1000,
        },
        reason: match value::lookup(m, "reason"@) {
            Some(t) => match value::as_text(t) {
                Some(s) => s,
                None => Seq::empty(),
            },
            None => Seq::empty(),
        },
    }
}

/// What a message of an application says, by the rules for WebSockets.
pub open spec fn ws_event(message: Term) -> Result<WsEventView, SendErrorView> {
    let m = asgi::entries(message);
    match value::lookup(m, "type"@) {
        None => Err(SendErrorView::Rule(Rule::MissingType)),
        Some(t) => match value::as_text(t) {
            None => Err(SendErrorView::Rule(Rule::TypeNotText)),
            Some(kind) => if kind == "websocket.accept"@ {
                Ok(WsEventView::Accept)
            } else if kind == "websocket.send"@ {
                payload(m)
            } else if kind == "websocket.close"@ {
                Ok(closing(m))
            } else {
                Err(SendErrorView::UnsupportedType(kind))
            },
        },
    }
}

proof fn types_differ()
    ensures
        "websocket.accept"@ != "websocket.send"@,
        "websocket.accept"@ != "websocket.close"@,
        "websocket.send"@ != "websocket.close"@,
{
    reveal_strlit("websocket.accept");
    reveal_strlit("websocket.send");
    reveal_strlit("websocket.close");
    assert("websocket.accept"@.len() == 16);
    assert("websocket.send"@.len() == 14);
    assert("websocket.close"@.len() == 15);
}

/// What the application sends is taken as it is: a text under `text` alone, a
/// byte string under `bytes` alone. Both, neither and anything else are turned
/// down.
pub proof fn payload_is_taken_as_it_is(m: Seq<(Seq<char>, Term)>, s: Seq<char>, b: Seq<u8>)
    requires
        value::lookup(m, "type"@) == Some(Term::Str("websocket.send"@)),
    ensures
        ({
            let got = ws_event(Term::Dict(m));
            let t = value::lookup(m, "text"@);
            let d = value::lookup(m, "bytes"@);
            &&& t == Some(Term::Str(s)) && d is None ==> got == Ok::<_, SendErrorView>(
                WsEventView::SendText(s),
            )
            &&& t is None && d == Some(Term::Bytes(b)) ==> got == Ok::<_, SendErrorView>(
                WsEventView::SendBytes(b),
            )
            &&& t is None && d == Some(Term::ByteArray(b)) ==> got == Ok::<_, SendErrorView>(
                WsEventView::SendBytes(b),
            )
            &&& t is Some && d is Some ==> got is Err
            &&& t is None && d is None ==> got is Err
            &&& t is Some && !(t->0 is Str) ==> got is Err
            &&& d is Some && !(d->0 is Bytes || d->0 is ByteArray) ==> got is Err
        }),
{
    types_differ();
}

/// A close is always taken: with the code and the reason that it gives, or
/// with 1000 and none where they are missing or no such thing.
pub proof fn close_is_taken(m: Seq<(Seq<char>, Term)>, code: int, reason: Seq<char>)
    requires
        value::lookup(m, "type"@) == Some(Term::Str("websocket.close"@)),
    ensures
        ws_event(Term::Dict(m)) matches Ok(WsEventView::Close { code: c, reason: r }) && {
            let given = value::lookup(m, "code"@);
            let said = value::lookup(m, "reason"@);
            &&& given == Some(Term::Int(code)) && 0 <= code <= 65535 ==> c == code
            &&& given == Some(Term::Int(code)) && !(0 <= code <= 65535) ==> c == 1000
            &&& given is None || given->0 is Str || given->0 is Null ==> c == 1000
            &&& said == Some(Term::Str(reason)) ==> r == reason
            &&& said is None || !(said->0 is Str) ==> r.len() == 0
        },
{
    types_differ();
}

/// The application accepts, sends or closes; any other message is turned down.
pub proof fn three_types_are_known(m: Seq<(Seq<char>, Term)>, kind: Seq<char>)
    ensures
        value::lookup(m, "type"@) == Some(Term::Str("websocket.accept"@)) ==> ws_event(
            Term::Dict(m),
        ) == Ok::<_, SendErrorView>(WsEventView::Accept),
        value::lookup(m, "type"@) == Some(Term::Str(kind)) && kind != "websocket.accept"@ && kind
            != "websocket.send"@ && kind != "websocket.close"@ ==> ws_event(Term::Dict(m)) == Err::<
            WsEventView,
            _,
        >(SendErrorView::UnsupportedType(kind)),
        value::lookup(m, "type"@) is None ==> ws_event(Term::Dict(m)) is Err,
{
    types_differ();
}

fn parse_payload(m: &Vec<(String, Value)>) -> (r: Result<WsEvent, SendError>)
    ensures
        asgi::outcome_view(r) == payload(value::fields(m@)),
{
    match (get_item(m, "text"), get_item(m, "bytes")) {
        (Some(t), None) => match t.text() {
            Some(s) => Ok(WsEvent::SendText(s)),
            None => Err(SendError::Rule(Rule::TextNotText)),
        },
        (None, Some(b)) => match b.byte_string() {
            Some(data) => Ok(WsEvent::SendBytes(data)),
            None => Err(SendError::Rule(Rule::BytesNotBytes)),
        },
        (Some(_), Some(_)) => Err(SendError::Rule(Rule::TextAndBytes)),
        (None, None) => Err(SendError::Rule(Rule::NoPayload)),
    }
}

fn parse_closing(m: &Vec<(String, Value)>) -> (r: WsEvent)
    ensures
        r@ == closing(value::fields(m@)),
{
    let code: u16 = match get_item(m, "code") {
        Some(t) => match t.small_int() {
            Some(n) => n,
            None => 1000,
        },
        None => 1000,
    };
    let reason = match get_item(m, "reason") {
        Some(t) => match t.text() {
            Some(s) => s,
            None => String::new(),
        },
        None => String::new(),
    };
    WsEvent::Close { code, reason }
}

/// Reads a message of the application by the rules for WebSockets. `text` and
/// `bytes` exclude each other; a close has code 1000 unless it says otherwise.
pub fn parse_ws_message(message: &Value) -> (r: Result<WsEvent, SendError>)
    ensures
        asgi::outcome_view(r) == ws_event(message.term()),
{
    let empty: Vec<(String, Value)> = Vec::new();
    let m: &Vec<(String, Value)> = match message {
        Value::Dict(m) => m,
        _ => &empty,
    };
    proof {
        assert(value::fields(m@) =~= asgi::entries(message.term()));
    }
    let kind = match get_item(m, "type") {
        None => {
            return Err(SendError::Rule(Rule::MissingType));
        },
        Some(t) => match t.text() {
            None => {
                return Err(SendError::Rule(Rule::TypeNotText));
            },
            Some(s) => s,
        },
    };
    if str_eq(kind.as_str(), "websocket.accept") {
        Ok(WsEvent::Accept)
    } else if str_eq(kind.as_str(), "websocket.send") {
        parse_payload(m)
    } else if str_eq(kind.as_str(), "websocket.close") {
        Ok(parse_closing(m))
    } else {
        Err(SendError::UnsupportedType(kind))
    }
}

/// An entry under a key that the rules for WebSockets do not know is ignored,
/// wherever it stands.
pub proof fn unknown_keys_ignored(m: Seq<(Seq<char>, Term)>, at: int, key: Seq<char>, t: Term)
    requires
        0 <= at <= m.len(),
        key != "type"@,
        key != "text"@,
        key != "bytes"@,
        key != "code"@,
        key != "reason"@,
    ensures
        ws_event(Term::Dict(m.insert(at, (key, t)))) == ws_event(Term::Dict(m)),
{
    asgi::lookup_other(m, at, key, t, "type"@);
    asgi::lookup_other(m, at, key, t, "text"@);
    asgi::lookup_other(m, at, key, t, "bytes"@);
    asgi::lookup_other(m, at, key, t, "code"@);
    asgi::lookup_other(m, at, key, t, "reason"@);
}

/// The event that a message gives, unless the peer is gone or the message
/// breaks a rule.
pub fn admit_ws_message(disconnected: bool, message: &Value) -> (r: Result<WsEvent, PushError>)
    ensures
        disconnected ==> r == Err::<WsEvent, PushError>(PushError::Disconnected),
        !disconnected ==> match r {
            Ok(event) => ws_event(message.term()) == Ok::<_, SendErrorView>(event@),
            Err(PushError::Rejected(e)) => ws_event(message.term()) == Err::<WsEventView, _>(e@),
            Err(_) => false,
        },
{
    if disconnected {
        return Err(PushError::Disconnected);
    }
    match parse_ws_message(message) {
        Ok(event) => Ok(event),
        Err(e) => Err(PushError::Rejected(e)),
    }
}

/// What `send()` does once the channel has answered: `None` where the event
/// was taken, the event itself where it has to be waited for.
pub fn settle_ws_offer(answer: Offer<WsEvent>) -> (r: Result<Option<WsEvent>, PushError>)
    ensures
        r == match answer {
            Offer::Sent => Ok::<Option<WsEvent>, PushError>(None),
            Offer::Full(event) => Ok(Some(event)),
            Offer::Closed(_) => Err(PushError::Closed),
        },
{
    match answer {
        Offer::Sent => Ok(None),
        Offer::Full(event) => Ok(Some(event)),
        Offer::Closed(_) => Err(PushError::Closed),
    }
}

/// Whether a channel has taken an event of a WebSocket's application.
pub uninterp spec fn ws_took(tx: Sender<WsEvent>, event: WsEventView) -> bool;

/// `tokio::sync::mpsc::Sender::try_send`, for events of a WebSocket's
/// application: hands the event over without waiting. It says [`Offer::Sent`]
/// only where the channel has taken the event; else the event itself comes
/// back. Whether it is taken depends on the other users of the channel, so
/// nothing is said of that here.
#[verifier::external_body]
fn offer_ws_event(tx: &Sender<WsEvent>, event: WsEvent) -> (r: Offer<WsEvent>)
    ensures
        r is Sent ==> ws_took(*tx, event@),
        r matches Offer::Full(e) ==> e == event,
        r matches Offer::Closed(e) ==> e == event,
{
    match tx.try_send(event) {
        Ok(()) => Offer::Sent,
        Err(TrySendError::Full(e)) => Offer::Full(e),
        Err(TrySendError::Closed(e)) => Offer::Closed(e),
    }
}

/// The server's end of `send()` for one WebSocket.
pub struct WsSink {
    tx: Sender<WsEvent>,
}

impl WsSink {
    /// The channel that this sink feeds.
    pub closed spec fn channel(self) -> Sender<WsEvent> {
        self.tx
    }

    pub fn new(tx: Sender<WsEvent>) -> (r: WsSink)
        ensures
            r.channel() == tx,
    {
        WsSink { tx }
    }

    /// Takes a message from the application without waiting. `disconnected`
    /// tells whether the peer is gone. The result is `None` where the event was
    /// taken, and the event where the channel is full: the application then
    /// waits until there is room.
    pub fn push(&self, disconnected: bool, message: &Value) -> (r: Result<
        Option<WsEvent>,
        PushError,
    >)
        ensures
            disconnected ==> r == Err::<Option<WsEvent>, PushError>(PushError::Disconnected),
            !disconnected ==> match ws_event(message.term()) {
                Err(e) => r matches Err(PushError::Rejected(x)) && x@ == e,
                Ok(event) => match r {
                    Ok(None) => ws_took(self.channel(), event),
                    Ok(Some(waiting)) => waiting@ == event,
                    Err(e) => e is Closed,
                },
            },
    {
        match admit_ws_message(disconnected, message) {
            Ok(event) => settle_ws_offer(offer_ws_event(&self.tx, event)),
            Err(e) => Err(e),
        }
    }
}

/// Whether one of the pieces between the commas is `upgrade`, in any case.
pub open spec fn lists_upgrade(s: Seq<char>) -> bool {
    exists|i: int|
        0 <= i < text::split(s, ',').len() && text::lower(
            text::trimmed(#[trigger] text::split(s, ',')[i]),
        ) == "upgrade"@
}

/// Whether a head asks for an upgrade to a WebSocket: a `GET` whose first
/// `upgrade` header is `websocket` and whose first `connection` header lists
/// `upgrade`, in any case.
pub open spec fn asks_upgrade(head: RequestHead) -> bool {
    let hs = headers::pairs(head.headers@);
    &&& head.method@ == "GET"@
    &&& headers::first_value(hs, "upgrade"@) matches Some(v) && headers::visible(v) matches Some(s)
        && text::lower(s) == "websocket"@
    &&& headers::first_value(hs, "connection"@) matches Some(v) && headers::visible(v) matches Some(
        s,
    ) && lists_upgrade(s)
}

/// A list names the upgrade if and only if one of the words between its commas
/// is `upgrade`, whatever blanks stand around it, in any case and in any place.
pub proof fn upgrade_is_listed(pieces: Seq<Seq<char>>)
    requires
        pieces.len() > 0,
        forall|i: int| 0 <= i < pieces.len() ==> !(#[trigger] pieces[i]).contains(','),
    ensures
        lists_upgrade(text::join(pieces, ',')) <==> exists|i: int|
            0 <= i < pieces.len() && text::lower(text::trimmed(#[trigger] pieces[i]))
                == "upgrade"@,
{
    text::join_split(pieces, ',');
    let all = text::split(text::join(pieces, ','), ',');
    assert(all == pieces);
    if lists_upgrade(text::join(pieces, ',')) {
        let i = choose|i: int|
            0 <= i < all.len() && text::lower(text::trimmed(#[trigger] all[i])) == "upgrade"@;
        assert(text::lower(text::trimmed(pieces[i])) == "upgrade"@);
    }
}

/// An upgrade is asked for by a `GET` with an `upgrade` header that is
/// `websocket` and a `connection` header that lists `upgrade`. Where one of the
/// three is missing, none is.
pub proof fn upgrade_takes_three(head: RequestHead, u: Seq<char>, c: Seq<char>)
    ensures
        ({
            let hs = headers::pairs(head.headers@);
            let protocol = headers::first_value(hs, "upgrade"@);
            let connection = headers::first_value(hs, "connection"@);
            &&& head.method@ == "GET"@ && protocol is Some && headers::visible(protocol->0) == Some(
                u,
            ) && text::lower(u) == "websocket"@ && connection is Some && headers::visible(
                connection->0,
            ) == Some(c) && lists_upgrade(c) ==> asks_upgrade(head)
            &&& head.method@ != "GET"@ ==> !asks_upgrade(head)
            &&& protocol is None ==> !asks_upgrade(head)
            &&& connection is None ==> !asks_upgrade(head)
            &&& protocol is Some && headers::visible(protocol->0) == Some(u) && text::lower(u)
                != "websocket"@ ==> !asks_upgrade(head)
            &&& connection is Some && headers::visible(connection->0) == Some(c) && !lists_upgrade(
                c,
            ) ==> !asks_upgrade(head)
        }),
{
}

/// The plain answer and the plain request: `websocket` and `Upgrade`.
pub(crate) proof fn plain_upgrade()
    ensures
        lists_upgrade("Upgrade"@),
        text::lower("websocket"@) == "websocket"@,
        headers::visible(headers::ascii("Upgrade"@)) == Some("Upgrade"@),
        headers::visible(headers::ascii("websocket"@)) == Some("websocket"@),
{
    reveal_strlit("Upgrade");
    reveal_strlit("upgrade");
    reveal_strlit("websocket");
    let word = "Upgrade"@;
    let pieces = seq![word];
    assert forall|i: int| 0 <= i < word.len() implies word[i] != ',' by {
        assert(i == 0 || i == 1 || i == 2 || i == 3 || i == 4 || i == 5 || i == 6);
    }
    assert(!word.contains(','));
    assert(text::join(pieces, ',') == word);
    text::white_space_is_invisible(word[0]);
    text::white_space_is_invisible(word.last());
    text::trimming_leaves_the_rest(word);
    assert(text::lower(word) =~= "upgrade"@);
    assert(text::lower(text::trimmed(pieces[0])) == "upgrade"@);
    upgrade_is_listed(pieces);
    assert(text::lower("websocket"@) =~= "websocket"@);
    let a = headers::ascii(word);
    let b = headers::ascii("websocket"@);
    assert(forall|i: int| 0 <= i < a.len() ==> headers::is_visible(#[trigger] a[i]));
    assert(forall|i: int| 0 <= i < b.len() ==> headers::is_visible(#[trigger] b[i]));
    assert(a.map_values(|x: u8| x as char) =~= word);
    assert(b.map_values(|x: u8| x as char) =~= "websocket"@);
}

fn lists_upgrade_exec(s: &str) -> (r: bool)
    ensures
        r == lists_upgrade(s@),
{
    let pieces = split_on(s, ',');
    let ghost all = text::split(s@, ',');
    let mut i: usize = 0;
    while i < pieces.len()
        invariant
            i <= pieces@.len(),
            text::texts(pieces@) == all,
            all == text::split(s@, ','),
            forall|j: int|
                0 <= j < i ==> text::lower(text::trimmed(#[trigger] all[j])) != "upgrade"@,
        decreases pieces@.len() - i,
    {
        assert(all[i as int] == pieces@[i as int]@);
        let word = to_lower(trim(pieces[i].as_str()).as_str());
        if str_eq(word.as_str(), "upgrade") {
            return true;
        }
        i += 1;
    }
    assert(pieces@.len() == all.len());
    false
}

/// The text of the first header under a name, where it is visible ASCII.
pub open spec fn header_text(head: RequestHead, name: Seq<char>) -> Option<Seq<char>> {
    match headers::first_value(headers::pairs(head.headers@), name) {
        Some(v) => headers::visible(v),
        None => None,
    }
}

/// The text of the first header under a name, where it is visible ASCII.
pub fn header_string(head: &RequestHead, name: &str) -> (r: Option<String>)
    ensures
        r is Some <==> header_text(*head, name@) is Some,
        r matches Some(s) ==> header_text(*head, name@) == Some(s@),
{
    match first_header(&head.headers, name) {
        Some(v) => visible_text(v),
        None => None,
    }
}

/// Whether the request asks for an upgrade to a WebSocket.
pub fn is_websocket_upgrade(head: &RequestHead) -> (r: bool)
    ensures
        r == asks_upgrade(*head),
{
    let upgrade_ok = match header_string(head, "upgrade") {
        Some(s) => str_eq(to_lower(s.as_str()).as_str(), "websocket"),
        None => false,
    };
    let connection_ok = match header_string(head, "connection") {
        Some(s) => lists_upgrade_exec(s.as_str()),
        None => false,
    };
    upgrade_ok && connection_ok && str_eq(head.method.as_str(), "GET")
}

/// The key that proves to a client that its handshake was understood.
pub uninterp spec fn derived_key(key: Seq<u8>) -> Seq<char>;

/// `tungstenite::handshake::derive_accept_key`: the digest of the client's key
/// and a fixed text, in base 64. The result depends on the key's bytes alone;
/// the digest itself is not said here.
#[verifier::external_body]
fn derive_accept_key(key: &[u8]) -> (r: String)
    ensures
        r@ == derived_key(key@),
{
    tokio_tungstenite::tungstenite::handshake::derive_accept_key(key)
}

/// The value of `Sec-WebSocket-Accept` for a client's key.
pub fn accept_key(key: &str) -> (r: String)
    ensures
        r@ == derived_key(encode_utf8(key@)),
{
    derive_accept_key(key.as_bytes())
}

/// What is kept of a request that became a WebSocket.
#[derive(Debug)]
pub struct WsHandshake {
    pub path: String,
    pub raw_path: Vec<u8>,
    pub query_string: Vec<u8>,
    pub headers: Vec<(Vec<u8>, Vec<u8>)>,
    pub scheme: String,
    pub http_version: String,
}

/// The scope of a WebSocket.
pub open spec fn ws_scope(
    hs: WsHandshake,
    has_state: bool,
    client: (Seq<char>, u16),
    server: (Seq<char>, u16),
) -> Term {
    Term::Dict(
        seq![
            ("type"@, Term::Str("websocket"@)),
            ("asgi"@, asgi::version_term()),
            ("http_version"@, Term::Str(hs.http_version@)),
            ("scheme"@, Term::Str(hs.scheme@)),
            ("path"@, Term::Str(asgi::spelled(asgi::unescaped(encode_utf8(hs.path@))))),
            ("raw_path"@, Term::Bytes(hs.raw_path@)),
            ("query_string"@, Term::Bytes(hs.query_string@)),
            ("root_path"@, Term::Str(""@)),
            ("headers"@, asgi::headers_term(asgi::header_views(hs.headers@))),
            ("client"@, asgi::address_term(client.0, client.1)),
            ("server"@, asgi::address_term(server.0, server.1)),
            ("extensions"@, Term::Dict(Seq::empty())),
            ("state"@, asgi::state_term(has_state)),
            ("subprotocols"@, Term::List(Seq::empty())),
        ],
    )
}

/// The scope shows the handshake: under each key stands what the handshake has
/// of that name, the path with its escapes resolved and the raw path as it
/// came, and the constant entries are those of the protocol.
pub proof fn scope_shows_the_handshake(
    hs: WsHandshake,
    has_state: bool,
    client: (Seq<char>, u16),
    server: (Seq<char>, u16),
)
    ensures
        ({
            let scope = asgi::entries(ws_scope(hs, has_state, client, server));
            &&& value::lookup(scope, "type"@) == Some(Term::Str("websocket"@))
            &&& value::lookup(scope, "http_version"@) == Some(Term::Str(hs.http_version@))
            &&& value::lookup(scope, "scheme"@) == Some(Term::Str(hs.scheme@))
            &&& value::lookup(scope, "path"@) == Some(
                Term::Str(asgi::spelled(asgi::unescaped(encode_utf8(hs.path@)))),
            )
            &&& value::lookup(scope, "raw_path"@) == Some(Term::Bytes(hs.raw_path@))
            &&& value::lookup(scope, "query_string"@) == Some(Term::Bytes(hs.query_string@))
            &&& value::lookup(scope, "root_path"@) == Some(Term::Str(""@))
            &&& value::lookup(scope, "client"@) == Some(
                Term::Tuple(seq![Term::Str(client.0), Term::Int(client.1 as int)]),
            )
            &&& value::lookup(scope, "server"@) == Some(
                Term::Tuple(seq![Term::Str(server.0), Term::Int(server.1 as int)]),
            )
            &&& value::lookup(scope, "extensions"@) == Some(Term::Dict(Seq::empty()))
            &&& value::lookup(scope, "subprotocols"@) == Some(Term::List(Seq::empty()))
            &&& value::lookup(scope, "state"@) == Some(
                if has_state {
                    Term::State
                } else {
                    Term::Dict(Seq::empty())
                },
            )
            &&& value::lookup(scope, "asgi"@) == Some(asgi::version_term())
            &&& value::lookup(scope, "headers"@) matches Some(Term::List(list)) && list.len()
                == hs.headers@.len() && forall|i: int|
                0 <= i < list.len() ==> (#[trigger] list[i]) == Term::Tuple(
                    seq![Term::Bytes(hs.headers@[i].0@), Term::Bytes(hs.headers@[i].1@)],
                )
        }),
{
    asgi::keys_differ();
    let m = asgi::entries(ws_scope(hs, has_state, client, server));
    asgi::lookup_at(m, "type"@, 0);
    assert forall|j: int| 0 <= j < 1 implies (#[trigger] m[j]).0 != "asgi"@ by {
        assert(j == 0);
    }
    asgi::lookup_at(m, "asgi"@, 1);
    assert forall|j: int| 0 <= j < 2 implies (#[trigger] m[j]).0 != "http_version"@ by {
        assert(j == 0 || j == 1);
    }
    asgi::lookup_at(m, "http_version"@, 2);
    assert forall|j: int| 0 <= j < 3 implies (#[trigger] m[j]).0 != "scheme"@ by {
        assert(j == 0 || j == 1 || j == 2);
    }
    asgi::lookup_at(m, "scheme"@, 3);
    assert forall|j: int| 0 <= j < 4 implies (#[trigger] m[j]).0 != "path"@ by {
        assert(j == 0 || j == 1 || j == 2 || j == 3);
    }
    asgi::lookup_at(m, "path"@, 4);
    assert forall|j: int| 0 <= j < 5 implies (#[trigger] m[j]).0 != "raw_path"@ by {
        assert(j == 0 || j == 1 || j == 2 || j == 3 || j == 4);
    }
    asgi::lookup_at(m, "raw_path"@, 5);
    assert forall|j: int| 0 <= j < 6 implies (#[trigger] m[j]).0 != "query_string"@ by {
        assert(j == 0 || j == 1 || j == 2 || j == 3 || j == 4 || j == 5);
    }
    asgi::lookup_at(m, "query_string"@, 6);
    assert forall|j: int| 0 <= j < 7 implies (#[trigger] m[j]).0 != "root_path"@ by {
        assert(j == 0 || j == 1 || j == 2 || j == 3 || j == 4 || j == 5 || j == 6);
    }
    asgi::lookup_at(m, "root_path"@, 7);
    assert forall|j: int| 0 <= j < 8 implies (#[trigger] m[j]).0 != "headers"@ by {
        assert(j == 0 || j == 1 || j == 2 || j == 3 || j == 4 || j == 5 || j == 6 || j == 7);
    }
    asgi::lookup_at(m, "headers"@, 8);
    assert forall|j: int| 0 <= j < 9 implies (#[trigger] m[j]).0 != "client"@ by {
        assert(j == 0 || j == 1 || j == 2 || j == 3 || j == 4 || j == 5 || j == 6 || j == 7 || j == 8);
    }
    asgi::lookup_at(m, "client"@, 9);
    assert forall|j: int| 0 <= j < 10 implies (#[trigger] m[j]).0 != "server"@ by {
        assert(j == 0 || j == 1 || j == 2 || j == 3 || j == 4 || j == 5 || j == 6 || j == 7 || j == 8 || j == 9);
    }
    asgi::lookup_at(m, "server"@, 10);
    assert forall|j: int| 0 <= j < 11 implies (#[trigger] m[j]).0 != "extensions"@ by {
        assert(j == 0 || j == 1 || j == 2 || j == 3 || j == 4 || j == 5 || j == 6 || j == 7 || j == 8 || j == 9 || j == 10);
    }
    asgi::lookup_at(m, "extensions"@, 11);
    assert forall|j: int| 0 <= j < 12 implies (#[trigger] m[j]).0 != "state"@ by {
        assert(j == 0 || j == 1 || j == 2 || j == 3 || j == 4 || j == 5 || j == 6 || j == 7 || j == 8 || j == 9 || j == 10 || j == 11);
    }
    asgi::lookup_at(m, "state"@, 12);
    assert forall|j: int| 0 <= j < 13 implies (#[trigger] m[j]).0 != "subprotocols"@ by {
        assert(j == 0 || j == 1 || j == 2 || j == 3 || j == 4 || j == 5 || j == 6 || j == 7 || j == 8 || j == 9 || j == 10 || j == 11 || j == 12);
    }
    asgi::lookup_at(m, "subprotocols"@, 13);
}

/// The scope that the application is called with for a WebSocket.
pub fn build_ws_scope(
    hs: &WsHandshake,
    has_state: bool,
    client_host: &str,
    client_port: u16,
    server_host: &str,
    server_port: u16,
) -> (r: Value)
    ensures
        r.term() == ws_scope(
            *hs,
            has_state,
            (client_host@, client_port),
            (server_host@, server_port),
        ),
{
    let none: Vec<Value> = Vec::new();
    assert(value::terms(none@) =~= Seq::empty());
    let mut scope: Vec<(String, Value)> = Vec::new();
    scope.push(entry("type", text_value("websocket")));
    scope.push(entry("asgi", version_value()));
    scope.push(entry("http_version", text_value(hs.http_version.as_str())));
    scope.push(entry("scheme", text_value(hs.scheme.as_str())));
    scope.push(entry("path", text_value(percent_decode(hs.path.as_str()).as_str())));
    scope.push(entry("raw_path", bytes_value(&hs.raw_path)));
    scope.push(entry("query_string", bytes_value(&hs.query_string)));
    scope.push(entry("root_path", text_value("")));
    scope.push(entry("headers", headers_value(&hs.headers)));
    scope.push(entry("client", address_value(client_host, client_port)));
    scope.push(entry("server", address_value(server_host, server_port)));
    scope.push(entry("extensions", empty_dict()));
    scope.push(entry("state", state_value(has_state)));
    scope.push(entry("subprotocols", Value::List(none)));
    proof {
        assert(value::fields(scope@) =~= ws_scope(
            *hs,
            has_state,
            (client_host@, client_port),
            (server_host@, server_port),
        )->Dict_0);
    }
    Value::Dict(scope)
}

/// What the peer's side of a connection tells the application.
#[derive(Debug)]
pub enum WsInbound {
    Connect,
    Text(String),
    Bytes(Vec<u8>),
    Disconnect { code: u16, reason: String },
}

/// The message that tells the application of an inbound event. A binary
/// message carries its bytes under two keys.
pub open spec fn inbound_term(inbound: WsInbound) -> Term {
    Term::Dict(
        match inbound {
            WsInbound::Connect => seq![("type"@, Term::Str("websocket.connect"@))],
            WsInbound::Text(s) => seq![
                ("type"@, Term::Str("websocket.receive"@)),
                ("text"@, Term::Str(s@)),
            ],
            WsInbound::Bytes(b) => seq![
                ("type"@, Term::Str("websocket.receive"@)),
                ("body"@, Term::Bytes(b@)),
                ("bytes"@, Term::Bytes(b@)),
            ],
            WsInbound::Disconnect { code, reason } => seq![
                ("type"@, Term::Str("websocket.disconnect"@)),
                ("code"@, Term::Int(code as int)),
                ("reason"@, Term::Str(reason@)),
            ],
        },
    )
}

/// The application is told of what happened: a text comes as a text, bytes as
/// bytes, and the end with its code and its reason.
pub proof fn inbound_tells_what_came(inbound: WsInbound)
    ensures
        ({
            let m = asgi::entries(inbound_term(inbound));
            &&& value::lookup(m, "type"@) == Some(
                Term::Str(
                    match inbound {
                        WsInbound::Connect => "websocket.connect"@,
                        WsInbound::Disconnect { .. } => "websocket.disconnect"@,
                        _ => "websocket.receive"@,
                    },
                ),
            )
            &&& inbound matches WsInbound::Text(s) ==> value::lookup(m, "text"@) == Some(
                Term::Str(s@),
            ) && value::lookup(m, "bytes"@) is None
            &&& inbound matches WsInbound::Bytes(b) ==> value::lookup(m, "bytes"@) == Some(
                Term::Bytes(b@),
            ) && value::lookup(m, "text"@) is None
            &&& inbound matches WsInbound::Disconnect { code, reason } ==> value::lookup(
                m,
                "code"@,
            ) == Some(Term::Int(code as int)) && value::lookup(m, "reason"@) == Some(
                Term::Str(reason@),
            )
        }),
{
    asgi::keys_differ();
    let m = asgi::entries(inbound_term(inbound));
    asgi::lookup_at(m, "type"@, 0);
    match inbound {
        WsInbound::Connect => {},
        WsInbound::Text(s) => {
            asgi::lookup_at(m, "text"@, 1);
            value::lookup_comes_first(m, "bytes"@);
        },
        WsInbound::Bytes(b) => {
            asgi::lookup_at(m, "bytes"@, 2);
            value::lookup_comes_first(m, "text"@);
        },
        WsInbound::Disconnect { code, reason } => {
            asgi::lookup_at(m, "code"@, 1);
            asgi::lookup_at(m, "reason"@, 2);
        },
    }
}

/// The message that tells the application of an inbound event.
pub fn inbound_message(inbound: &WsInbound) -> (r: Value)
    ensures
        r.term() == inbound_term(*inbound),
{
    let mut v: Vec<(String, Value)> = Vec::new();
    match inbound {
        WsInbound::Connect => {
            v.push(entry("type", text_value("websocket.connect")));
        },
        WsInbound::Text(s) => {
            v.push(entry("type", text_value("websocket.receive")));
            v.push(entry("text", text_value(s.as_str())));
        },
        WsInbound::Bytes(b) => {
            v.push(entry("type", text_value("websocket.receive")));
            v.push(entry("body", bytes_value(b)));
            v.push(entry("bytes", bytes_value(b)));
        },
        WsInbound::Disconnect { code, reason } => {
            v.push(entry("type", text_value("websocket.disconnect")));
            v.push(entry("code", Value::Int(*code as i64)));
            v.push(entry("reason", text_value(reason.as_str())));
        },
    }
    proof {
        assert(value::fields(v@) =~= inbound_term(*inbound)->Dict_0);
    }
    Value::Dict(v)
}

/// Whether the exception that ended the application is worth a line: a
/// cancellation after a clean close is not. `name` is the name of the
/// exception's type, where it has one.
pub fn is_reportable(name: Option<&str>) -> (r: bool)
    ensures
        r == !(name matches Some(n) && text::occurs(n@, "Cancelled"@)),
{
    match name {
        Some(n) => !contains(n, "Cancelled"),
        None => true,
    }
}

} // verus!
