//! The ASGI HTTP protocol between server and application: the messages that
//! an application may send, the scope that it is called with, and the
//! hand-over of both.

use vstd::prelude::*;
use vstd::utf8::*;
use tokio::sync::mpsc::error::TrySendError;
use tokio::sync::mpsc::Sender;
use crate::channel::Offer;
use crate::headers;
use crate::metrics;
use crate::metrics::Metrics;
use crate::text;
use crate::text::{bytes_eq, cat, chars_of, str_eq, to_decimal};
use crate::value;
use crate::value::{copy_bytes, get_item, Term, Value};

verus! {

/// Bound of the channel from the application to the server.
pub const RESPONSE_CHANNEL_BOUND: usize = 16;

/// Bound of the queue from the server to the application.
pub const REQUEST_QUEUE_MAXSIZE: usize = 64;

/// Seconds that one put of a request chunk may wait.
pub const REQUEST_PUT_TIMEOUT: u64 = 60;

/// One event of a response, as the application sends it.
#[derive(Debug)]
pub enum ResponseEvent {
    Start { status: u16, headers: Vec<(Vec<u8>, Vec<u8>)> },
    Body { data: Vec<u8>, more_body: bool },
}

/// The content of a [`ResponseEvent`].
pub enum ResponseEventView {
    Start { status: int, headers: Seq<(Seq<u8>, Seq<u8>)> },
    Body { data: Seq<u8>, more_body: bool },
}

/// The content of a list of headers.
pub open spec fn header_views(h: Seq<(Vec<u8>, Vec<u8>)>) -> Seq<(Seq<u8>, Seq<u8>)> {
    h.map_values(|p: (Vec<u8>, Vec<u8>)| (p.0@, p.1@))
}

impl View for ResponseEvent {
    type V = ResponseEventView;

    open spec fn view(&self) -> ResponseEventView {
        match self {
            ResponseEvent::Start { status, headers } => ResponseEventView::Start {
                status: *status as int,
                headers: header_views(headers@),
            },
            ResponseEvent::Body { data, more_body } => ResponseEventView::Body {
                data: data@,
                more_body: *more_body,
            },
        }
    }
}

/// A rule of the protocol that a message can break.
#[derive(Debug, Clone, Copy, PartialEq, Eq, Structural)]
pub enum Rule {
    MissingType,
    TypeNotText,
    MissingStatus,
    StatusNotInteger,
    NoTrailers,
    HeadersNotIterable,
    HeaderShape,
    HeaderNameNotBytes,
    HeaderValueNotBytes,
    HeaderNotLowercase,
    PseudoHeader,
    BodyNotBytes,
    TextNotText,
    BytesNotBytes,
    TextAndBytes,
    NoPayload,
}

/// Why a message was rejected.
#[derive(Debug)]
pub enum SendError {
    /// The message breaks a rule.
    Rule(Rule),
    /// The status is no HTTP status.
    InvalidStatus(u16),
    /// The server knows no message of this type.
    UnsupportedType(String),
    /// Reading the message raised an exception of its own.
    Raised,
}

/// The content of a [`SendError`].
pub enum SendErrorView {
    Rule(Rule),
    InvalidStatus(int),
    UnsupportedType(Seq<char>),
    Raised,
}

impl View for SendError {
    type V = SendErrorView;

    open spec fn view(&self) -> SendErrorView {
        match self {
            SendError::Rule(r) => SendErrorView::Rule(*r),
            SendError::InvalidStatus(n) => SendErrorView::InvalidStatus(*n as int),
            SendError::UnsupportedType(s) => SendErrorView::UnsupportedType(s@),
            SendError::Raised => SendErrorView::Raised,
        }
    }
}

/// The content of an outcome of reading a message.
pub open spec fn outcome_view<T: View>(r: Result<T, SendError>) -> Result<T::V, SendErrorView> {
    match r {
        Ok(v) => Ok(v@),
        Err(e) => Err(e@),
    }
}

/// The text of each rule, as the application sees it.
pub open spec fn rule_text(r: Rule) -> Seq<char> {
    match r {
        Rule::MissingType => "send(): message missing 'type'"@,
        Rule::TypeNotText => "send(): message 'type' must be str"@,
        Rule::MissingStatus => "send(): http.response.start missing 'status'"@,
        Rule::StatusNotInteger => "send(): 'status' must be an integer"@,
        Rule::NoTrailers => "send(): HTTP trailers are not supported by this server"@,
        Rule::HeadersNotIterable => "send(): 'headers' must be iterable"@,
        Rule::HeaderShape => "send(): headers must be 2-item (name, value) sequences"@,
        Rule::HeaderNameNotBytes => "send(): header names must be bytes"@,
        Rule::HeaderValueNotBytes => "send(): header values must be bytes"@,
        Rule::HeaderNotLowercase => "send(): response header names must be lowercase"@,
        Rule::PseudoHeader => "send(): pseudo-headers are not allowed"@,
        Rule::BodyNotBytes => "send(): 'body' must be bytes"@,
        Rule::TextNotText => "send(): 'text' must be str"@,
        Rule::BytesNotBytes => "send(): 'bytes' must be bytes"@,
        Rule::TextAndBytes => "send(): 'text' and 'bytes' are mutually exclusive"@,
        Rule::NoPayload => "send(): websocket.send needs 'text' or 'bytes'"@,
    }
}

impl Rule {
    /// The text of this rule.
    pub fn text(self) -> (r: &'static str)
        ensures
            r@ == rule_text(self),
    {
        match self {
            Rule::MissingType => "send(): message missing 'type'",
            Rule::TypeNotText => "send(): message 'type' must be str",
            Rule::MissingStatus => "send(): http.response.start missing 'status'",
            Rule::StatusNotInteger => "send(): 'status' must be an integer",
            Rule::NoTrailers => "send(): HTTP trailers are not supported by this server",
            Rule::HeadersNotIterable => "send(): 'headers' must be iterable",
            Rule::HeaderShape => "send(): headers must be 2-item (name, value) sequences",
            Rule::HeaderNameNotBytes => "send(): header names must be bytes",
            Rule::HeaderValueNotBytes => "send(): header values must be bytes",
            Rule::HeaderNotLowercase => "send(): response header names must be lowercase",
            Rule::PseudoHeader => "send(): pseudo-headers are not allowed",
            Rule::BodyNotBytes => "send(): 'body' must be bytes",
            Rule::TextNotText => "send(): 'text' must be str",
            Rule::BytesNotBytes => "send(): 'bytes' must be bytes",
            Rule::TextAndBytes => "send(): 'text' and 'bytes' are mutually exclusive",
            Rule::NoPayload => "send(): websocket.send needs 'text' or 'bytes'",
        }
    }
}

/// What the formatting of a text for programmers writes: the text in quotes,
/// with escapes.
pub uninterp spec fn quoted(s: Seq<char>) -> Seq<char>;

/// `<str as Debug>::fmt`, through `format!`: the text in quotes, with escapes.
/// The result depends on the text alone; which characters are escaped, and
/// how, is not said here.
#[verifier::external_body]
pub(crate) fn quote(s: &str) -> (r: String)
    ensures
        r@ == quoted(s@),
{
    format!("{s:?}")
}

impl SendError {
    /// The text of this error, as the application sees it.
    pub open spec fn text(self) -> Seq<char> {
        match self {
            SendError::Rule(r) => rule_text(r),
            SendError::InvalidStatus(n) => "send(): invalid HTTP status "@ + text::decimal(n as nat),
            SendError::UnsupportedType(s) => "send(): unsupported message type "@ + quoted(s@),
            SendError::Raised => Seq::empty(),
        }
    }

    /// The text of this error, as the application sees it. Where the
    /// application's own exception is to be raised, it is empty.
    pub fn message(&self) -> (r: String)
        ensures
            r@ == self.text(),
    {
        match self {
            SendError::Rule(r) => r.text().to_string(),
            SendError::InvalidStatus(n) => cat(
                "send(): invalid HTTP status ",
                to_decimal(*n as u64).as_str(),
            ),
            SendError::UnsupportedType(s) => cat(
                "send(): unsupported message type ",
                quote(s.as_str()).as_str(),
            ),
            SendError::Raised => String::new(),
        }
    }
}

/// The entries of a message: a value that is no mapping has none.
pub open spec fn entries(message: Term) -> Seq<(Seq<char>, Term)> {
    match message {
        Term::Dict(m) => m,
        _ => Seq::empty(),
    }
}

/// The bytes of a body: byte strings, and the null object for the empty one.
pub open spec fn body_bytes(t: Term) -> Option<Seq<u8>> {
    match t {
        Term::Null => Some(Seq::empty()),
        _ => value::as_byte_string(t),
    }
}

/// The name and the value of one header, read from a sequence of two byte
/// strings.
pub open spec fn header_pair(t: Term) -> Result<(Seq<u8>, Seq<u8>), SendErrorView> {
    match value::elements(t) {
        Some(p) => if p.len() != 2 {
            Err(SendErrorView::Rule(Rule::HeaderShape))
        } else {
            match (value::as_byte_string(p[0]), value::as_byte_string(p[1])) {
                (None, _) => Err(SendErrorView::Rule(Rule::HeaderNameNotBytes)),
                (_, None) => Err(SendErrorView::Rule(Rule::HeaderValueNotBytes)),
                (Some(n), Some(v)) => Ok((n, v)),
            }
        },
        None => Err(SendErrorView::Rule(Rule::HeaderShape)),
    }
}

/// Whether a byte is an ASCII capital letter.
pub open spec fn is_upper(b: u8) -> bool {
    65 <= b <= 90
}

/// The header that the server owns: `transfer-encoding`.
pub open spec fn framing_header() -> Seq<u8> {
    seq![
        116u8, 114u8, 97u8, 110u8, 115u8, 102u8, 101u8, 114u8, 45u8,
        101u8, 110u8, 99u8, 111u8, 100u8, 105u8, 110u8, 103u8,
    ]
}

/// One header of a response: what is kept of it, or why it is rejected.
pub open spec fn checked_header(t: Term) -> Result<Option<(Seq<u8>, Seq<u8>)>, SendErrorView> {
    match header_pair(t) {
        Err(e) => Err(e),
        Ok(h) => if exists|i: int| 0 <= i < h.0.len() && is_upper(#[trigger] h.0[i]) {
            Err(SendErrorView::Rule(Rule::HeaderNotLowercase))
        } else if h.0.len() > 0 && h.0[0] == 58 {
            Err(SendErrorView::Rule(Rule::PseudoHeader))
        } else if h.0 == framing_header() {
            Ok(None)
        } else {
            Ok(Some(h))
        },
    }
}

/// The headers kept of a list of items, in order; the first item that is
/// rejected rejects the list.
pub open spec fn checked_headers(
    list: Seq<Term>,
) -> Result<Seq<(Seq<u8>, Seq<u8>)>, SendErrorView>
    decreases list.len(),
{
    if list.len() == 0 {
        Ok(Seq::empty())
    } else {
        match checked_headers(list.drop_last()) {
            Err(e) => Err(e),
            Ok(hs) => if list.last() is Raised {
                Err(SendErrorView::Raised)
            } else {
                match checked_header(list.last()) {
                    Err(e) => Err(e),
                    Ok(None) => Ok(hs),
                    Ok(Some(h)) => Ok(hs.push(h)),
                }
            },
        }
    }
}

/// What a `http.response.start` message says.
pub open spec fn start_event(
    m: Seq<(Seq<char>, Term)>,
) -> Result<ResponseEventView, SendErrorView> {
    match value::lookup(m, "status"@) {
        None => Err(SendErrorView::Rule(Rule::MissingStatus)),
        Some(t) => match value::as_u16(t) {
            None => Err(SendErrorView::Rule(Rule::StatusNotInteger)),
            Some(status) => if !(100 <= status <= 599) {
                Err(SendErrorView::InvalidStatus(status))
            } else if value::lookup(m, "trailers"@) matches Some(w) && value::as_bool(w) == Some(true) {
                Err(SendErrorView::Rule(Rule::NoTrailers))
            } else {
                match value::lookup(m, "headers"@) {
                    None => Ok(ResponseEventView::Start { status, headers: Seq::empty() }),
                    Some(h) => match value::items(h) {
                        None => Err(SendErrorView::Rule(Rule::HeadersNotIterable)),
                        Some(list) => match checked_headers(list) {
                            Err(e) => Err(e),
                            Ok(headers) => Ok(ResponseEventView::Start { status, headers }),
                        },
                    },
                }
            },
        },
    }
}

/// What a `http.response.body` message says.
pub open spec fn body_event(
    m: Seq<(Seq<char>, Term)>,
) -> Result<ResponseEventView, SendErrorView> {
    let more_body = match value::lookup(m, "more_body"@) {
        Some(t) => value::as_bool(t) == Some(true),
        None => false,
    };
    match value::lookup(m, "body"@) {
        None => Ok(ResponseEventView::Body { data: Seq::empty(), more_body }),
        Some(t) => match body_bytes(t) {
            None => Err(SendErrorView::Rule(Rule::BodyNotBytes)),
            Some(data) => Ok(ResponseEventView::Body { data, more_body }),
        },
    }
}

/// What a message of an application says, by the rules for HTTP.
pub open spec fn response_event(message: Term) -> Result<ResponseEventView, SendErrorView> {
    let m = entries(message);
    match value::lookup(m, "type"@) {
        None => Err(SendErrorView::Rule(Rule::MissingType)),
        Some(t) => match value::as_text(t) {
            None => Err(SendErrorView::Rule(Rule::TypeNotText)),
            Some(kind) => if kind == "http.response.start"@ {
                start_event(m)
            } else if kind == "http.response.body"@ {
                body_event(m)
            } else if kind == "http.response.trailers"@ {
                Err(SendErrorView::Rule(Rule::NoTrailers))
            } else {
                Err(SendErrorView::UnsupportedType(kind))
            },
        },
    }
}

/// Trailers are refused as such, any other type as one that is not known, and a
/// message without a type for the want of it.
pub proof fn other_types_are_refused(m: Seq<(Seq<char>, Term)>, kind: Seq<char>)
    ensures
        value::lookup(m, "type"@) == Some(Term::Str("http.response.trailers"@)) ==> response_event(
            Term::Dict(m),
        ) == Err::<ResponseEventView, _>(SendErrorView::Rule(Rule::NoTrailers)),
        value::lookup(m, "type"@) == Some(Term::Str(kind)) && kind != "http.response.start"@ && kind
            != "http.response.body"@ && kind != "http.response.trailers"@ ==> response_event(
            Term::Dict(m),
        ) == Err::<ResponseEventView, _>(SendErrorView::UnsupportedType(kind)),
        value::lookup(m, "type"@) is None ==> response_event(Term::Dict(m)) == Err::<
            ResponseEventView,
            _,
        >(SendErrorView::Rule(Rule::MissingType)),
{
    reveal_strlit("http.response.start");
    reveal_strlit("http.response.body");
    reveal_strlit("http.response.trailers");
    assert("http.response.start"@.len() == 19 && "http.response.body"@.len() == 18
        && "http.response.trailers"@.len() == 22);
}

/// The bytes of a body.
fn as_bytes(v: &Value) -> (r: Option<Vec<u8>>)
    ensures
        r is Some <==> body_bytes(v.term()) is Some,
        r matches Some(b) ==> body_bytes(v.term()) == Some(b@),
{
    match v {
        Value::Null => Some(Vec::new()),
        _ => v.byte_string(),
    }
}

/// The name and the value of one header.
fn extract_header_pair(pair: &Value) -> (r: Result<(Vec<u8>, Vec<u8>), SendError>)
    ensures
        match r {
            Ok(h) => header_pair(pair.term()) == Ok::<_, SendErrorView>((h.0@, h.1@)),
            Err(e) => header_pair(pair.term()) == Err::<(Seq<u8>, Seq<u8>), _>(e@),
        },
{
    let seq: &Vec<Value> = match pair {
        Value::List(v) => v,
        Value::Tuple(v) => v,
        Value::Str(s) => {
            if chars_of(s.as_str()).len() == 2 {
                return Err(SendError::Rule(Rule::HeaderNameNotBytes));
            }
            return Err(SendError::Rule(Rule::HeaderShape));
        },
        Value::Bytes(b) => {
            if b.len() == 2 {
                return Err(SendError::Rule(Rule::HeaderNameNotBytes));
            }
            return Err(SendError::Rule(Rule::HeaderShape));
        },
        Value::ByteArray(b) => {
            if b.len() == 2 {
                return Err(SendError::Rule(Rule::HeaderNameNotBytes));
            }
            return Err(SendError::Rule(Rule::HeaderShape));
        },
        _ => {
            return Err(SendError::Rule(Rule::HeaderShape));
        },
    };
    if seq.len() != 2 {
        return Err(SendError::Rule(Rule::HeaderShape));
    }
    let name = match seq[0].byte_string() {
        Some(b) => b,
        None => {
            return Err(SendError::Rule(Rule::HeaderNameNotBytes));
        },
    };
    match seq[1].byte_string() {
        Some(value) => Ok((name, value)),
        None => Err(SendError::Rule(Rule::HeaderValueNotBytes)),
    }
}

/// Whether a name holds an ASCII capital letter.
fn has_upper(name: &[u8]) -> (r: bool)
    ensures
        r == exists|i: int| 0 <= i < name@.len() && is_upper(#[trigger] name@[i]),
{
    let mut i: usize = 0;
    while i < name.len()
        invariant
            i <= name@.len(),
            forall|j: int| 0 <= j < i ==> !is_upper(#[trigger] name@[j]),
        decreases name@.len() - i,
    {
        if 65 <= name[i] && name[i] <= 90 {
            assert(is_upper(name@[i as int]));
            return true;
        }
        i += 1;
    }
    false
}

/// Whether a name is `transfer-encoding`.
fn is_framing(name: &[u8]) -> (r: bool)
    ensures
        r == (name@ == framing_header()),
{
    let own: [u8; 17] = [
        116u8, 114u8, 97u8, 110u8, 115u8, 102u8, 101u8, 114u8, 45u8,
        101u8, 110u8, 99u8, 111u8, 100u8, 105u8, 110u8, 103u8,
    ];
    assert(own@ =~= framing_header());
    bytes_eq(name, own.as_slice())
}

/// One header of a response: what is kept of it, or why it is rejected.
fn check_header(pair: &Value) -> (r: Result<Option<(Vec<u8>, Vec<u8>)>, SendError>)
    ensures
        match r {
            Ok(None) => checked_header(pair.term()) == Ok::<
                Option<(Seq<u8>, Seq<u8>)>,
                SendErrorView,
            >(None),
            Ok(Some(h)) => checked_header(pair.term()) == Ok::<
                Option<(Seq<u8>, Seq<u8>)>,
                SendErrorView,
            >(Some((h.0@, h.1@))),
            Err(e) => checked_header(pair.term()) == Err::<
                Option<(Seq<u8>, Seq<u8>)>,
                SendErrorView,
            >(e@),
        },
{
    let header = match extract_header_pair(pair) {
        Ok(h) => h,
        Err(e) => {
            return Err(e);
        },
    };
    if has_upper(header.0.as_slice()) {
        return Err(SendError::Rule(Rule::HeaderNotLowercase));
    }
    if header.0.len() > 0 && header.0[0] == 58 {
        return Err(SendError::Rule(Rule::PseudoHeader));
    }
    if is_framing(header.0.as_slice()) {
        return Ok(None);
    }
    Ok(Some(header))
}

/// A list that fails early fails as a whole, in the same way.
proof fn checked_headers_prefix(list: Seq<Term>, n: int)
    requires
        0 <= n <= list.len(),
        checked_headers(list.take(n)) is Err,
    ensures
        checked_headers(list) == checked_headers(list.take(n)),
    decreases list.len() - n,
{
    if n == list.len() {
        assert(list.take(n) =~= list);
    } else {
        assert(list.take(n + 1).drop_last() =~= list.take(n));
        checked_headers_prefix(list, n + 1);
    }
}

/// The headers kept of a list of items, in order.
fn collect_headers(list: &Vec<Value>) -> (r: Result<Vec<(Vec<u8>, Vec<u8>)>, SendError>)
    ensures
        match r {
            Ok(hs) => checked_headers(value::terms(list@)) == Ok::<
                Seq<(Seq<u8>, Seq<u8>)>,
                SendErrorView,
            >(header_views(hs@)),
            Err(e) => checked_headers(value::terms(list@)) == Err::<
                Seq<(Seq<u8>, Seq<u8>)>,
                SendErrorView,
            >(e@),
        },
{
    let mut headers: Vec<(Vec<u8>, Vec<u8>)> = Vec::new();
    let mut i: usize = 0;
    let ghost all = value::terms(list@);
    proof {
        assert(header_views(headers@) =~= Seq::empty());
    }
    while i < list.len()
        invariant
            i <= list@.len(),
            all == value::terms(list@),
            checked_headers(all.take(i as int)) == Ok::<
                Seq<(Seq<u8>, Seq<u8>)>,
                SendErrorView,
            >(header_views(headers@)),
        decreases list@.len() - i,
    {
        proof {
            assert(all.take(i + 1).drop_last() =~= all.take(i as int));
            assert(all.take(i + 1).last() == list@[i as int].term());
        }
        if let Value::Raised = &list[i] {
            proof {
                checked_headers_prefix(all, i + 1);
            }
            return Err(SendError::Raised);
        }
        match check_header(&list[i]) {
            Err(e) => {
                proof {
                    checked_headers_prefix(all, i + 1);
                }
                return Err(e);
            },
            Ok(None) => {},
            Ok(Some(h)) => {
                let ghost before = headers@;
                headers.push(h);
                proof {
                    assert(header_views(headers@) =~= header_views(before).push((h.0@, h.1@)));
                }
            },
        }
        i += 1;
    }
    assert(all.take(i as int) =~= all);
    Ok(headers)
}

/// The headers of a response, read from the object that the application gave.
fn read_headers(raw: &Value) -> (r: Result<Vec<(Vec<u8>, Vec<u8>)>, SendError>)
    ensures
        match value::items(raw.term()) {
            None => r matches Err(e) && e@ == SendErrorView::Rule(Rule::HeadersNotIterable),
            Some(list) => match r {
                Ok(hs) => checked_headers(list) == Ok::<
                    Seq<(Seq<u8>, Seq<u8>)>,
                    SendErrorView,
                >(header_views(hs@)),
                Err(e) => checked_headers(list) == Err::<
                    Seq<(Seq<u8>, Seq<u8>)>,
                    SendErrorView,
                >(e@),
            },
        },
{
    match raw {
        Value::List(v) => collect_headers(v),
        Value::Tuple(v) => collect_headers(v),
        Value::Iter(v) => collect_headers(v),
        Value::Dict(m) => {
            let keys = key_values(m);
            collect_headers(&keys)
        },
        Value::Str(s) => {
            let parts = char_values(s.as_str());
            collect_headers(&parts)
        },
        Value::Bytes(b) => {
            let parts = byte_values(b);
            collect_headers(&parts)
        },
        Value::ByteArray(b) => {
            let parts = byte_values(b);
            collect_headers(&parts)
        },
        _ => Err(SendError::Rule(Rule::HeadersNotIterable)),
    }
}

fn key_values(m: &Vec<(String, Value)>) -> (r: Vec<Value>)
    ensures
        value::terms(r@) == value::fields(m@).map_values(
            |e: (Seq<char>, Term)| Term::Str(e.0),
        ),
{
    let mut out: Vec<Value> = Vec::new();
    let mut i: usize = 0;
    while i < m.len()
        invariant
            i <= m@.len(),
            out@.len() == i,
            forall|j: int| 0 <= j < i ==> (#[trigger] out@[j]).term() == Term::Str(m@[j].0@),
        decreases m@.len() - i,
    {
        out.push(Value::Str(m[i].0.clone()));
        i += 1;
    }
    assert(value::terms(out@) =~= value::fields(m@).map_values(
        |e: (Seq<char>, Term)| Term::Str(e.0),
    ));
    out
}

fn char_values(s: &str) -> (r: Vec<Value>)
    ensures
        value::terms(r@) == value::char_terms(s@),
{
    let cs = chars_of(s);
    let mut out: Vec<Value> = Vec::new();
    let mut i: usize = 0;
    while i < cs.len()
        invariant
            i <= cs@.len(),
            cs@ == s@,
            out@.len() == i,
            forall|j: int| 0 <= j < i ==> (#[trigger] out@[j]).term() == Term::Str(seq![s@[j]]),
        decreases cs@.len() - i,
    {
        let mut one = String::new();
        one.push(cs[i]);
        proof {
            assert(one@ =~= seq![s@[i as int]]);
        }
        out.push(Value::Str(one));
        i += 1;
    }
    assert(value::terms(out@) =~= value::char_terms(s@));
    out
}

fn byte_values(b: &Vec<u8>) -> (r: Vec<Value>)
    ensures
        value::terms(r@) == value::byte_terms(b@),
{
    let mut out: Vec<Value> = Vec::new();
    let mut i: usize = 0;
    while i < b.len()
        invariant
            i <= b@.len(),
            out@.len() == i,
            forall|j: int| 0 <= j < i ==> (#[trigger] out@[j]).term() == Term::Int(b@[j] as int),
        decreases b@.len() - i,
    {
        out.push(Value::Int(b[i] as i64));
        i += 1;
    }
    assert(value::terms(out@) =~= value::byte_terms(b@));
    out
}

/// Reads a message of the application by the rules for HTTP.
///
/// A message of an unknown type, a start without an integer status from 100
/// to 599, and headers that are not pairs of byte strings are rejected; so
/// are names with capitals, pseudo-headers and trailers. A `transfer-encoding`
/// header is dropped: the server owns the framing. Other keys are ignored.
pub fn parse_send_message(message: &Value) -> (r: Result<ResponseEvent, SendError>)
    ensures
        outcome_view(r) == response_event(message.term()),
{
    let empty: Vec<(String, Value)> = Vec::new();
    let m: &Vec<(String, Value)> = match message {
        Value::Dict(m) => m,
        _ => &empty,
    };
    proof {
        assert(value::fields(m@) =~= entries(message.term()));
    }
    let kind = match get_item(m, "type") {
        None => {
            return Err(SendError::Rule(Rule::MissingType));
        },
        Some(t) => match t.text() {
            None => {
                return Err(SendError::Rule(Rule::TypeNotText));
            },
            Some(s) => s,
        },
    };
    if str_eq(kind.as_str(), "http.response.start") {
        parse_start(m)
    } else if str_eq(kind.as_str(), "http.response.body") {
        parse_body(m)
    } else if str_eq(kind.as_str(), "http.response.trailers") {
        Err(SendError::Rule(Rule::NoTrailers))
    } else {
        Err(SendError::UnsupportedType(kind))
    }
}

fn parse_start(m: &Vec<(String, Value)>) -> (r: Result<ResponseEvent, SendError>)
    ensures
        outcome_view(r) == start_event(value::fields(m@)),
{
    let status: u16 = match get_item(m, "status") {
        None => {
            return Err(SendError::Rule(Rule::MissingStatus));
        },
        Some(t) => match t.small_int() {
            None => {
                return Err(SendError::Rule(Rule::StatusNotInteger));
            },
            Some(n) => n,
        },
    };
    if !(100 <= status && status <= 599) {
        return Err(SendError::InvalidStatus(status));
    }
    if let Some(wanted) = get_item(m, "trailers") {
        if let Some(true) = wanted.boolean() {
            return Err(SendError::Rule(Rule::NoTrailers));
        }
    }
    match get_item(m, "headers") {
        None => {
            let headers: Vec<(Vec<u8>, Vec<u8>)> = Vec::new();
            proof {
                assert(header_views(headers@) =~= Seq::empty());
            }
            Ok(ResponseEvent::Start { status, headers })
        },
        Some(raw) => match read_headers(raw) {
            Ok(headers) => Ok(ResponseEvent::Start { status, headers }),
            Err(e) => Err(e),
        },
    }
}

fn parse_body(m: &Vec<(String, Value)>) -> (r: Result<ResponseEvent, SendError>)
    ensures
        outcome_view(r) == body_event(value::fields(m@)),
{
    let data = match get_item(m, "body") {
        None => Vec::new(),
        Some(t) => match as_bytes(t) {
            None => {
                return Err(SendError::Rule(Rule::BodyNotBytes));
            },
            Some(b) => b,
        },
    };
    let more_body = match get_item(m, "more_body") {
        None => false,
        Some(t) => matches!(t.boolean(), Some(true)),
    };
    Ok(ResponseEvent::Body { data, more_body })
}

/// Every start event that is accepted is clean: its status is an HTTP status,
/// and no header has a capital letter in its name, is a pseudo-header or
/// touches the framing.
pub proof fn accepted_start_is_clean(message: Term)
    requires
        response_event(message) matches Ok(ResponseEventView::Start { status, headers }),
    ensures
        response_event(message) matches Ok(ResponseEventView::Start { status, headers })
            && 100 <= status <= 599 && forall|i: int|
            0 <= i < headers.len() ==> clean_name((#[trigger] headers[i]).0),
{
    let m = entries(message);
    if let Some(h) = value::lookup(m, "headers"@) {
        if let Some(list) = value::items(h) {
            kept_headers_are_clean(list);
        }
    }
}

/// A header name that the application may set.
pub open spec fn clean_name(name: Seq<u8>) -> bool {
    &&& forall|i: int| 0 <= i < name.len() ==> !is_upper(#[trigger] name[i])
    &&& !(name.len() > 0 && name[0] == 58)
    &&& name != framing_header()
}

proof fn kept_headers_are_clean(list: Seq<Term>)
    ensures
        checked_headers(list) matches Ok(hs) ==> forall|i: int|
            0 <= i < hs.len() ==> clean_name((#[trigger] hs[i]).0),
    decreases list.len(),
{
    if list.len() > 0 {
        kept_headers_are_clean(list.drop_last());
    }
}

/// A pair of byte strings, as an application writes a header.
pub open spec fn written_header(h: (Seq<u8>, Seq<u8>)) -> Term {
    Term::Tuple(seq![Term::Bytes(h.0), Term::Bytes(h.1)])
}

/// Headers without those that the server owns.
pub open spec fn without_framing(hs: Seq<(Seq<u8>, Seq<u8>)>) -> Seq<(Seq<u8>, Seq<u8>)>
    decreases hs.len(),
{
    if hs.len() == 0 {
        Seq::empty()
    } else {
        let rest = without_framing(hs.drop_last());
        if hs.last().0 == headers::ascii("transfer-encoding"@) {
            rest
        } else {
            rest.push(hs.last())
        }
    }
}

/// Whether an application may write a name: without capital letters, and not
/// as a pseudo-header, which begins with a colon.
pub open spec fn writable(name: Seq<u8>) -> bool {
    &&& forall|i: int| 0 <= i < name.len() ==> !(65 <= #[trigger] name[i] <= 90)
    &&& name.len() > 0 ==> name[0] != 58
}

/// Every proper start is accepted: with an integer status from 100 to 599,
/// without trailers, and with headers that are pairs of byte strings under
/// names that an application may write. What comes of it has just that status
/// and those headers, in order, less `transfer-encoding`.
pub proof fn proper_start_is_accepted(
    m: Seq<(Seq<char>, Term)>,
    status: int,
    hs: Seq<(Seq<u8>, Seq<u8>)>,
)
    requires
        value::lookup(m, "type"@) == Some(Term::Str("http.response.start"@)),
        value::lookup(m, "status"@) == Some(Term::Int(status)),
        100 <= status <= 599,
        value::lookup(m, "trailers"@) != Some(Term::Bool(true)),
        value::lookup(m, "headers"@) == Some(
            Term::List(hs.map_values(|h: (Seq<u8>, Seq<u8>)| written_header(h))),
        ) || value::lookup(m, "headers"@) is None && hs.len() == 0,
        forall|i: int| 0 <= i < hs.len() ==> writable((#[trigger] hs[i]).0),
    ensures
        response_event(Term::Dict(m)) == Ok::<_, SendErrorView>(
            ResponseEventView::Start { status, headers: without_framing(hs) },
        ),
{
    types_differ();
    let list = hs.map_values(|h: (Seq<u8>, Seq<u8>)| written_header(h));
    proper_headers_pass(hs);
    if value::lookup(m, "headers"@) is None {
        assert(without_framing(hs) =~= Seq::empty());
    }
}

/// The server owns the header `transfer-encoding`, and no other.
pub proof fn framing_is_transfer_encoding()
    ensures
        framing_header() == headers::ascii("transfer-encoding"@),
{
    reveal_strlit("transfer-encoding");
    assert(framing_header() =~= headers::ascii("transfer-encoding"@));
}

proof fn types_differ()
    ensures
        "http.response.start"@ != "http.response.body"@,
        "http.response.start"@ != "http.response.trailers"@,
        "http.response.body"@ != "http.response.trailers"@,
{
    reveal_strlit("http.response.start");
    reveal_strlit("http.response.body");
    reveal_strlit("http.response.trailers");
    assert("http.response.start"@.len() == 19);
    assert("http.response.body"@.len() == 18);
    assert("http.response.trailers"@.len() == 22);
}

proof fn proper_headers_pass(hs: Seq<(Seq<u8>, Seq<u8>)>)
    requires
        forall|i: int| 0 <= i < hs.len() ==> writable((#[trigger] hs[i]).0),
    ensures
        checked_headers(hs.map_values(|h: (Seq<u8>, Seq<u8>)| written_header(h))) == Ok::<
            _,
            SendErrorView,
        >(without_framing(hs)),
    decreases hs.len(),
{
    let list = hs.map_values(|h: (Seq<u8>, Seq<u8>)| written_header(h));
    if hs.len() > 0 {
        let before = hs.drop_last();
        assert forall|i: int| 0 <= i < before.len() implies writable((#[trigger] before[i]).0) by {
            assert(before[i] == hs[i]);
        }
        proper_headers_pass(before);
        assert(list.drop_last() =~= before.map_values(
            |h: (Seq<u8>, Seq<u8>)| written_header(h),
        ));
        let h = hs.last();
        assert(writable(hs[hs.len() - 1].0));
        assert(list.last() == written_header(h));
        let p = seq![Term::Bytes(h.0), Term::Bytes(h.1)];
        assert(p[0] == Term::Bytes(h.0) && p[1] == Term::Bytes(h.1));
        framing_is_transfer_encoding();
    }
}

/// Every integer status is either accepted or out of range: a start is turned
/// down for its status if and only if that lies outside 100 to 599. A status
/// that is missing, or no integer, is turned down as such.
pub proof fn status_decides(m: Seq<(Seq<char>, Term)>, n: int)
    requires
        value::lookup(m, "type"@) == Some(Term::Str("http.response.start"@)),
    ensures
        value::lookup(m, "status"@) == Some(Term::Int(n)) && 0 <= n <= 65535 ==> (
        response_event(Term::Dict(m)) == Err::<ResponseEventView, _>(
            SendErrorView::InvalidStatus(n),
        ) <==> n < 100 || n > 599),
        value::lookup(m, "status"@) == Some(Term::Int(n)) && !(0 <= n <= 65535)
            ==> response_event(Term::Dict(m)) == Err::<ResponseEventView, _>(
            SendErrorView::Rule(Rule::StatusNotInteger),
        ),
        value::lookup(m, "status"@) is None ==> response_event(Term::Dict(m)) == Err::<
            ResponseEventView,
            _,
        >(SendErrorView::Rule(Rule::MissingStatus)),
        value::lookup(m, "status"@) matches Some(t) && (t is Str || t is Null || t is Bytes
            || t is List || t is Other) ==> response_event(Term::Dict(m)) is Err,
        value::lookup(m, "trailers"@) == Some(Term::Bool(true)) ==> response_event(Term::Dict(m))
            is Err,
{
    types_differ();
    if let Some(h) = value::lookup(m, "headers"@) {
        if let Some(list) = value::items(h) {
            no_status_error(list);
        }
    }
}

proof fn no_status_error(list: Seq<Term>)
    ensures
        checked_headers(list) matches Err(e) ==> !(e is InvalidStatus),
    decreases list.len(),
{
    if list.len() > 0 {
        no_status_error(list.drop_last());
    }
}

/// A header that breaks a rule turns the whole start down, wherever it stands:
/// one that is no pair, one whose name or value is no byte string, and one
/// under a name that an application may not write.
pub proof fn one_bad_header_is_enough(m: Seq<(Seq<char>, Term)>, list: Seq<Term>, i: int)
    requires
        value::lookup(m, "type"@) == Some(Term::Str("http.response.start"@)),
        value::lookup(m, "headers"@) == Some(Term::List(list)),
        0 <= i < list.len(),
        match list[i] {
            Term::Tuple(p) => p.len() != 2 || !(p[0] is Bytes || p[0] is ByteArray) || !(
            p[1] is Bytes || p[1] is ByteArray) || p[0] is Bytes && !writable(p[0]->Bytes_0),
            _ => !(list[i] is List) && !(list[i] is Str) && !(list[i] is Bytes) && !(
            list[i] is ByteArray),
        },
    ensures
        response_event(Term::Dict(m)) is Err,
{
    types_differ();
    let t = list[i];
    if let Term::Tuple(p) = t {
        if p.len() == 2 && p[0] is Bytes && !writable(p[0]->Bytes_0) {
            let name = p[0]->Bytes_0;
            if exists|k: int| 0 <= k < name.len() && 65 <= (#[trigger] name[k]) <= 90 {
                let k = choose|k: int| 0 <= k < name.len() && 65 <= (#[trigger] name[k]) <= 90;
                assert(is_upper(name[k]));
            }
        }
    }
    assert(checked_header(t) is Err);
    assert(list.take(i + 1).drop_last() =~= list.take(i));
    assert(list.take(i + 1).last() == t);
    assert(checked_headers(list.take(i + 1)) is Err);
    checked_headers_prefix(list, i + 1);
}

/// A body message hands over its bytes, and says whether more follows. A body
/// that is missing or null is empty; one that is anything but bytes is turned
/// down.
pub proof fn body_is_taken_as_it_is(m: Seq<(Seq<char>, Term)>, data: Seq<u8>)
    requires
        value::lookup(m, "type"@) == Some(Term::Str("http.response.body"@)),
    ensures
        ({
            let more_body = value::lookup(m, "more_body"@) == Some(Term::Bool(true));
            let whole = Ok::<_, SendErrorView>(ResponseEventView::Body { data, more_body });
            let nothing = Ok::<_, SendErrorView>(
                ResponseEventView::Body { data: Seq::empty(), more_body },
            );
            let got = response_event(Term::Dict(m));
            &&& value::lookup(m, "body"@) == Some(Term::Bytes(data)) ==> got == whole
            &&& value::lookup(m, "body"@) == Some(Term::ByteArray(data)) ==> got == whole
            &&& value::lookup(m, "body"@) is None ==> got == nothing
            &&& value::lookup(m, "body"@) == Some(Term::Null) ==> got == nothing
            &&& got is Err <==> {
                &&& value::lookup(m, "body"@) matches Some(t)
                &&& !(t is Bytes || t is ByteArray || t is Null)
            }
        }),
{
    types_differ();
}

/// Keys that the rules for HTTP know.
pub open spec fn is_known_key(key: Seq<char>) -> bool {
    ||| key == "type"@
    ||| key == "status"@
    ||| key == "trailers"@
    ||| key == "headers"@
    ||| key == "body"@
    ||| key == "more_body"@
}

/// An entry under an unknown key is ignored, wherever it stands.
pub proof fn unknown_keys_ignored(m: Seq<(Seq<char>, Term)>, at: int, key: Seq<char>, t: Term)
    requires
        0 <= at <= m.len(),
        !is_known_key(key),
    ensures
        response_event(Term::Dict(m.insert(at, (key, t)))) == response_event(Term::Dict(m)),
{
    lookup_other(m, at, key, t, "type"@);
    lookup_other(m, at, key, t, "status"@);
    lookup_other(m, at, key, t, "trailers"@);
    lookup_other(m, at, key, t, "headers"@);
    lookup_other(m, at, key, t, "body"@);
    lookup_other(m, at, key, t, "more_body"@);
}

/// An entry under another key hides nothing.
pub(crate) proof fn lookup_other(
    m: Seq<(Seq<char>, Term)>,
    at: int,
    key: Seq<char>,
    t: Term,
    wanted: Seq<char>,
)
    requires
        0 <= at <= m.len(),
        key != wanted,
    ensures
        value::lookup(m.insert(at, (key, t)), wanted) == value::lookup(m, wanted),
    decreases at,
{
    let longer = m.insert(at, (key, t));
    if at == 0 {
        assert(longer.skip(1) =~= m);
    } else {
        assert(longer.skip(1) =~= m.skip(1).insert(at - 1, (key, t)));
        lookup_other(m.skip(1), at - 1, key, t, wanted);
    }
}

/// A message whose type is neither a start nor a body is never accepted.
pub proof fn other_types_rejected(m: Seq<(Seq<char>, Term)>)
    requires
        value::lookup(m, "type"@) != Some(Term::Str("http.response.start"@)),
        value::lookup(m, "type"@) != Some(Term::Str("http.response.body"@)),
    ensures
        response_event(Term::Dict(m)) is Err,
{
}

/// What carries a call: its name in the texts of errors.
#[derive(Debug, Clone, Copy, PartialEq, Eq, Structural)]
pub enum Transport {
    Http,
    WebSocket,
}

/// Why an event was not handed over.
#[derive(Debug)]
pub enum PushError {
    /// The client is gone.
    Disconnected,
    /// The message breaks a rule.
    Rejected(SendError),
    /// The receiver of events is gone.
    Closed,
}

impl PushError {
    /// The text of this error, as the application sees it.
    pub open spec fn text(self, transport: Transport) -> Seq<char> {
        match (self, transport) {
            (PushError::Rejected(e), _) => e.text(),
            (PushError::Disconnected, Transport::Http) =>
                "ASGI send(): connection closed (send after disconnect)"@,
            (PushError::Closed, Transport::Http) => "ASGI send(): connection closed"@,
            (PushError::Disconnected, Transport::WebSocket) =>
                "ASGI send(): websocket closed (send after disconnect)"@,
            (PushError::Closed, Transport::WebSocket) => "ASGI send(): websocket closed"@,
        }
    }

    /// The text of this error, as the application sees it.
    pub fn message(&self, transport: Transport) -> (r: String)
        ensures
            r@ == self.text(transport),
    {
        match (self, transport) {
            (PushError::Rejected(e), _) => e.message(),
            (PushError::Disconnected, Transport::Http) =>
                "ASGI send(): connection closed (send after disconnect)".to_string(),
            (PushError::Closed, Transport::Http) => "ASGI send(): connection closed".to_string(),
            (PushError::Disconnected, Transport::WebSocket) =>
                "ASGI send(): websocket closed (send after disconnect)".to_string(),
            (PushError::Closed, Transport::WebSocket) =>
                "ASGI send(): websocket closed".to_string(),
        }
    }

    /// Whether the application sees an `OSError`, not a `ValueError`.
    pub fn is_os_error(&self) -> (r: bool)
        ensures
            r == !(self is Rejected),
    {
        !matches!(self, PushError::Rejected(_))
    }
}

/// The event that a message gives, unless the client is gone or the message
/// breaks a rule.
pub fn admit_message(disconnected: bool, message: &Value) -> (r: Result<ResponseEvent, PushError>)
    ensures
        disconnected ==> r == Err::<ResponseEvent, PushError>(PushError::Disconnected),
        !disconnected ==> match r {
            Ok(event) => response_event(message.term()) == Ok::<_, SendErrorView>(event@),
            Err(PushError::Rejected(e)) => response_event(message.term()) == Err::<
                ResponseEventView,
                _,
            >(e@),
            Err(_) => false,
        },
{
    if disconnected {
        return Err(PushError::Disconnected);
    }
    match parse_send_message(message) {
        Ok(event) => Ok(event),
        Err(e) => Err(PushError::Rejected(e)),
    }
}

/// What `send()` does once the channel has answered: `None` where the event
/// was taken, the event itself where it has to be waited for.
pub fn settle_offer(
    metrics: &mut Metrics,
    answer: Offer<ResponseEvent>,
) -> (r: Result<Option<ResponseEvent>, PushError>)
    requires
        old(metrics)@.sized(),
    ensures
        r == match answer {
            Offer::Sent => Ok::<Option<ResponseEvent>, PushError>(None),
            Offer::Full(event) => Ok(Some(event)),
            Offer::Closed(_) => Err(PushError::Closed),
        },
        final(metrics)@ == match answer {
            Offer::Sent => old(metrics)@.counted(metrics::C_SEND_FAST as int),
            Offer::Full(_) => old(metrics)@.counted(metrics::C_SEND_FULL as int),
            Offer::Closed(_) => old(metrics)@,
        },
        final(metrics)@.sized(),
{
    match answer {
        Offer::Sent => {
            metrics::inc(metrics, metrics::C_SEND_FAST);
            Ok(None)
        },
        Offer::Full(event) => {
            metrics::inc(metrics, metrics::C_SEND_FULL);
            Ok(Some(event))
        },
        Offer::Closed(_) => Err(PushError::Closed),
    }
}

/// Whether a channel has taken an event of a response.
pub uninterp spec fn took(tx: Sender<ResponseEvent>, event: ResponseEventView) -> bool;

/// `tokio::sync::mpsc::Sender::try_send`, for events of a response: hands the
/// event over without waiting. It says [`Offer::Sent`] only where the channel
/// has taken the event; else the event itself comes back. Whether it is taken
/// depends on the other users of the channel, so nothing is said of that here.
#[verifier::external_body]
fn offer_event(tx: &Sender<ResponseEvent>, event: ResponseEvent) -> (r: Offer<ResponseEvent>)
    ensures
        r is Sent ==> took(*tx, event@),
        r matches Offer::Full(e) ==> e == event,
        r matches Offer::Closed(e) ==> e == event,
{
    match tx.try_send(event) {
        Ok(()) => Offer::Sent,
        Err(TrySendError::Full(e)) => Offer::Full(e),
        Err(TrySendError::Closed(e)) => Offer::Closed(e),
    }
}

/// The server's end of `send()` for one request.
pub struct SendSink {
    tx: Sender<ResponseEvent>,
}

impl SendSink {
    /// The channel that this sink feeds.
    pub closed spec fn channel(self) -> Sender<ResponseEvent> {
        self.tx
    }

    pub fn new(tx: Sender<ResponseEvent>) -> (r: SendSink)
        ensures
            r.channel() == tx,
    {
        SendSink { tx }
    }

    /// Takes a message from the application without waiting. `disconnected`
    /// tells whether the client is gone.
    ///
    /// The result is `None` where the event was taken, and the event where the
    /// channel is full: the application then waits until there is room.
    pub fn push(
        &self,
        metrics: &mut Metrics,
        disconnected: bool,
        message: &Value,
    ) -> (r: Result<Option<ResponseEvent>, PushError>)
        requires
            old(metrics)@.sized(),
        ensures
            final(metrics)@.sized(),
            disconnected ==> r == Err::<Option<ResponseEvent>, PushError>(
                PushError::Disconnected,
            ) && final(metrics)@ == old(metrics)@,
            !disconnected ==> match response_event(message.term()) {
                Err(e) => r matches Err(PushError::Rejected(x)) && x@ == e && final(metrics)@ == old(
                    metrics,
                )@,
                Ok(event) => match r {
                    Ok(None) => took(self.channel(), event) && final(metrics)@ == old(
                        metrics,
                    )@.counted(metrics::C_SEND_FAST as int),
                    Ok(Some(waiting)) => waiting@ == event && final(metrics)@ == old(
                        metrics,
                    )@.counted(metrics::C_SEND_FULL as int),
                    Err(e) => e is Closed && final(metrics)@ == old(metrics)@,
                },
            },
    {
        match admit_message(disconnected, message) {
            Ok(event) => settle_offer(metrics, offer_event(&self.tx, event)),
            Err(e) => Err(e),
        }
    }
}

/// What is known of a request before its body: the body streams separately.
#[derive(Debug)]
pub struct RequestData {
    pub method: String,
    pub http_version: String,
    pub scheme: String,
    pub path: String,
    pub raw_path: Vec<u8>,
    pub query_string: Vec<u8>,
    pub root_path: String,
    pub headers: Vec<(Vec<u8>, Vec<u8>)>,
    /// Without a body the terminal message is handed over in advance.
    pub has_body: bool,
    pub client_host: String,
    pub client_port: u16,
    pub server_host: String,
    pub server_port: u16,
}

/// The entry `asgi` of every scope.
pub open spec fn version_term() -> Term {
    Term::Dict(
        seq![
            ("version"@, Term::Str("3.0"@)),
            ("spec_version"@, Term::Str("2.5"@)),
        ],
    )
}

/// The headers of a scope: a list of pairs of byte strings.
pub open spec fn headers_term(headers: Seq<(Seq<u8>, Seq<u8>)>) -> Term {
    Term::List(
        headers.map_values(
            |h: (Seq<u8>, Seq<u8>)| Term::Tuple(seq![Term::Bytes(h.0), Term::Bytes(h.1)]),
        ),
    )
}

/// An address of a scope: a pair of host and port.
pub open spec fn address_term(host: Seq<char>, port: u16) -> Term {
    Term::Tuple(seq![Term::Str(host), Term::Int(port as int)])
}

/// The entry `state` of a scope: the state object of the lifespan handshake,
/// or an empty mapping.
pub open spec fn state_term(has_state: bool) -> Term {
    if has_state {
        Term::State
    } else {
        Term::Dict(Seq::empty())
    }
}

/// The scope of an HTTP request.
pub open spec fn http_scope(req: RequestData, has_state: bool) -> Term {
    Term::Dict(
        seq![
            ("type"@, Term::Str("http"@)),
            ("asgi"@, version_term()),
            ("http_version"@, Term::Str(req.http_version@)),
            ("method"@, Term::Str(req.method@)),
            ("scheme"@, Term::Str(req.scheme@)),
            ("path"@, Term::Str(req.path@)),
            ("raw_path"@, Term::Bytes(req.raw_path@)),
            ("query_string"@, Term::Bytes(req.query_string@)),
            ("root_path"@, Term::Str(req.root_path@)),
            ("headers"@, headers_term(header_views(req.headers@))),
            ("client"@, address_term(req.client_host@, req.client_port)),
            ("server"@, address_term(req.server_host@, req.server_port)),
            ("extensions"@, Term::Dict(Seq::empty())),
            ("state"@, state_term(has_state)),
        ],
    )
}

/// The scope shows every header of the request, in order and with duplicates,
/// as a pair of byte strings.
pub proof fn scope_keeps_headers(req: RequestData, has_state: bool, i: int)
    requires
        0 <= i < req.headers@.len(),
    ensures
        value::lookup(entries(http_scope(req, has_state)), "headers"@) matches Some(Term::List(hs))
            && hs.len() == req.headers@.len() && hs[i] == Term::Tuple(
            seq![Term::Bytes(req.headers@[i].0@), Term::Bytes(req.headers@[i].1@)],
        ),
{
    reveal_strlit("type");
    reveal_strlit("asgi");
    reveal_strlit("http_version");
    reveal_strlit("method");
    reveal_strlit("scheme");
    reveal_strlit("path");
    reveal_strlit("raw_path");
    reveal_strlit("query_string");
    reveal_strlit("root_path");
    reveal_strlit("headers");
    let m = entries(http_scope(req, has_state));
    assert("headers"@.len() == 7);
    assert forall|j: int| 0 <= j < 9 implies (#[trigger] m[j]).0 != "headers"@ by {
        assert("type"@.len() == 4 && "asgi"@.len() == 4 && "http_version"@.len() == 12);
        assert("method"@.len() == 6 && "scheme"@.len() == 6 && "path"@.len() == 4);
        assert("raw_path"@.len() == 8 && "query_string"@.len() == 12 && "root_path"@.len() == 9);
        assert(m[j].0.len() != 7);
    }
    lookup_at(m, "headers"@, 9);
}

/// An entry that no earlier one hides is found.
pub(crate) proof fn lookup_at(m: Seq<(Seq<char>, Term)>, key: Seq<char>, n: int)
    requires
        0 <= n < m.len(),
        m[n].0 == key,
        forall|j: int| 0 <= j < n ==> (#[trigger] m[j]).0 != key,
    ensures
        value::lookup(m, key) == Some(m[n].1),
    decreases n,
{
    if n > 0 {
        assert(m[0].0 != key);
        assert forall|j: int| 0 <= j < n - 1 implies (#[trigger] m.skip(1)[j]).0 != key by {
            assert(m[j + 1].0 != key);
        }
        lookup_at(m.skip(1), key, n - 1);
    }
}

/// What tells the keys of scopes and messages apart.
pub(crate) proof fn keys_differ()
    ensures
        "asgi"@.len() == 4,
        "asgi"@[0] == 'a',
        "asgi"@[1] == 's',
        "body"@.len() == 4,
        "body"@[0] == 'b',
        "body"@[1] == 'o',
        "bytes"@.len() == 5,
        "bytes"@[0] == 'b',
        "bytes"@[1] == 'y',
        "client"@.len() == 6,
        "client"@[0] == 'c',
        "client"@[1] == 'l',
        "code"@.len() == 4,
        "code"@[0] == 'c',
        "code"@[1] == 'o',
        "extensions"@.len() == 10,
        "extensions"@[0] == 'e',
        "extensions"@[1] == 'x',
        "headers"@.len() == 7,
        "headers"@[0] == 'h',
        "headers"@[1] == 'e',
        "http_version"@.len() == 12,
        "http_version"@[0] == 'h',
        "http_version"@[1] == 't',
        "message"@.len() == 7,
        "message"@[0] == 'm',
        "message"@[1] == 'e',
        "method"@.len() == 6,
        "method"@[0] == 'm',
        "method"@[1] == 'e',
        "more_body"@.len() == 9,
        "more_body"@[0] == 'm',
        "more_body"@[1] == 'o',
        "path"@.len() == 4,
        "path"@[0] == 'p',
        "path"@[1] == 'a',
        "query_string"@.len() == 12,
        "query_string"@[0] == 'q',
        "query_string"@[1] == 'u',
        "raw_path"@.len() == 8,
        "raw_path"@[0] == 'r',
        "raw_path"@[1] == 'a',
        "reason"@.len() == 6,
        "reason"@[0] == 'r',
        "reason"@[1] == 'e',
        "root_path"@.len() == 9,
        "root_path"@[0] == 'r',
        "root_path"@[1] == 'o',
        "scheme"@.len() == 6,
        "scheme"@[0] == 's',
        "scheme"@[1] == 'c',
        "server"@.len() == 6,
        "server"@[0] == 's',
        "server"@[1] == 'e',
        "spec_version"@.len() == 12,
        "spec_version"@[0] == 's',
        "spec_version"@[1] == 'p',
        "state"@.len() == 5,
        "state"@[0] == 's',
        "state"@[1] == 't',
        "status"@.len() == 6,
        "status"@[0] == 's',
        "status"@[1] == 't',
        "subprotocols"@.len() == 12,
        "subprotocols"@[0] == 's',
        "subprotocols"@[1] == 'u',
        "text"@.len() == 4,
        "text"@[0] == 't',
        "text"@[1] == 'e',
        "trailers"@.len() == 8,
        "trailers"@[0] == 't',
        "trailers"@[1] == 'r',
        "type"@.len() == 4,
        "type"@[0] == 't',
        "type"@[1] == 'y',
        "version"@.len() == 7,
        "version"@[0] == 'v',
        "version"@[1] == 'e',
{
    reveal_strlit("asgi");
    reveal_strlit("body");
    reveal_strlit("bytes");
    reveal_strlit("client");
    reveal_strlit("code");
    reveal_strlit("extensions");
    reveal_strlit("headers");
    reveal_strlit("http_version");
    reveal_strlit("message");
    reveal_strlit("method");
    reveal_strlit("more_body");
    reveal_strlit("path");
    reveal_strlit("query_string");
    reveal_strlit("raw_path");
    reveal_strlit("reason");
    reveal_strlit("root_path");
    reveal_strlit("scheme");
    reveal_strlit("server");
    reveal_strlit("spec_version");
    reveal_strlit("state");
    reveal_strlit("status");
    reveal_strlit("subprotocols");
    reveal_strlit("text");
    reveal_strlit("trailers");
    reveal_strlit("type");
    reveal_strlit("version");
}

/// The scope shows the request: under each key stands what the request has of
/// that name, and the constant entries are those of the protocol.
pub proof fn scope_shows_the_request(req: RequestData, has_state: bool)
    ensures
        ({
            let scope = entries(http_scope(req, has_state));
            &&& value::lookup(scope, "type"@) == Some(Term::Str("http"@))
            &&& value::lookup(scope, "http_version"@) == Some(Term::Str(req.http_version@))
            &&& value::lookup(scope, "method"@) == Some(Term::Str(req.method@))
            &&& value::lookup(scope, "scheme"@) == Some(Term::Str(req.scheme@))
            &&& value::lookup(scope, "path"@) == Some(Term::Str(req.path@))
            &&& value::lookup(scope, "raw_path"@) == Some(Term::Bytes(req.raw_path@))
            &&& value::lookup(scope, "query_string"@) == Some(Term::Bytes(req.query_string@))
            &&& value::lookup(scope, "root_path"@) == Some(Term::Str(req.root_path@))
            &&& value::lookup(scope, "client"@) == Some(
                Term::Tuple(seq![Term::Str(req.client_host@), Term::Int(req.client_port as int)]),
            )
            &&& value::lookup(scope, "server"@) == Some(
                Term::Tuple(seq![Term::Str(req.server_host@), Term::Int(req.server_port as int)]),
            )
            &&& value::lookup(scope, "extensions"@) == Some(Term::Dict(Seq::empty()))
            &&& value::lookup(scope, "state"@) == Some(
                if has_state {
                    Term::State
                } else {
                    Term::Dict(Seq::empty())
                },
            )
            &&& value::lookup(scope, "asgi"@) matches Some(Term::Dict(versions)) && value::lookup(
                versions,
                "version"@,
            ) == Some(Term::Str("3.0"@)) && value::lookup(versions, "spec_version"@) == Some(
                Term::Str("2.5"@),
            )
        }),
{
    keys_differ();
    let m = entries(http_scope(req, has_state));
    lookup_at(m, "type"@, 0);
    assert forall|j: int| 0 <= j < 1 implies (#[trigger] m[j]).0 != "asgi"@ by {
        assert(j == 0);
    }
    lookup_at(m, "asgi"@, 1);
    assert forall|j: int| 0 <= j < 2 implies (#[trigger] m[j]).0 != "http_version"@ by {
        assert(j == 0 || j == 1);
    }
    lookup_at(m, "http_version"@, 2);
    assert forall|j: int| 0 <= j < 3 implies (#[trigger] m[j]).0 != "method"@ by {
        assert(j == 0 || j == 1 || j == 2);
    }
    lookup_at(m, "method"@, 3);
    assert forall|j: int| 0 <= j < 4 implies (#[trigger] m[j]).0 != "scheme"@ by {
        assert(j == 0 || j == 1 || j == 2 || j == 3);
    }
    lookup_at(m, "scheme"@, 4);
    assert forall|j: int| 0 <= j < 5 implies (#[trigger] m[j]).0 != "path"@ by {
        assert(j == 0 || j == 1 || j == 2 || j == 3 || j == 4);
    }
    lookup_at(m, "path"@, 5);
    assert forall|j: int| 0 <= j < 6 implies (#[trigger] m[j]).0 != "raw_path"@ by {
        assert(j == 0 || j == 1 || j == 2 || j == 3 || j == 4 || j == 5);
    }
    lookup_at(m, "raw_path"@, 6);
    assert forall|j: int| 0 <= j < 7 implies (#[trigger] m[j]).0 != "query_string"@ by {
        assert(j == 0 || j == 1 || j == 2 || j == 3 || j == 4 || j == 5 || j == 6);
    }
    lookup_at(m, "query_string"@, 7);
    assert forall|j: int| 0 <= j < 8 implies (#[trigger] m[j]).0 != "root_path"@ by {
        assert(j == 0 || j == 1 || j == 2 || j == 3 || j == 4 || j == 5 || j == 6 || j == 7);
    }
    lookup_at(m, "root_path"@, 8);
    assert forall|j: int| 0 <= j < 9 implies (#[trigger] m[j]).0 != "headers"@ by {
        assert(j == 0 || j == 1 || j == 2 || j == 3 || j == 4 || j == 5 || j == 6 || j == 7 || j == 8);
    }
    lookup_at(m, "headers"@, 9);
    assert forall|j: int| 0 <= j < 10 implies (#[trigger] m[j]).0 != "client"@ by {
        assert(j == 0 || j == 1 || j == 2 || j == 3 || j == 4 || j == 5 || j == 6 || j == 7 || j == 8 || j == 9);
    }
    lookup_at(m, "client"@, 10);
    assert forall|j: int| 0 <= j < 11 implies (#[trigger] m[j]).0 != "server"@ by {
        assert(j == 0 || j == 1 || j == 2 || j == 3 || j == 4 || j == 5 || j == 6 || j == 7 || j == 8 || j == 9 || j == 10);
    }
    lookup_at(m, "server"@, 11);
    assert forall|j: int| 0 <= j < 12 implies (#[trigger] m[j]).0 != "extensions"@ by {
        assert(j == 0 || j == 1 || j == 2 || j == 3 || j == 4 || j == 5 || j == 6 || j == 7 || j == 8 || j == 9 || j == 10 || j == 11);
    }
    lookup_at(m, "extensions"@, 12);
    assert forall|j: int| 0 <= j < 13 implies (#[trigger] m[j]).0 != "state"@ by {
        assert(j == 0 || j == 1 || j == 2 || j == 3 || j == 4 || j == 5 || j == 6 || j == 7 || j == 8 || j == 9 || j == 10 || j == 11 || j == 12);
    }
    lookup_at(m, "state"@, 13);
    let versions = entries(version_term());
    lookup_at(versions, "version"@, 0);
    lookup_at(versions, "spec_version"@, 1);
}

/// Requests that differ have scopes that differ: the scope tells the method,
/// the path, the query, the headers and the ends of the connection.
pub proof fn scopes_tell_requests_apart(a: RequestData, b: RequestData, has_state: bool)
    requires
        http_scope(a, has_state) == http_scope(b, has_state),
    ensures
        a.method@ == b.method@,
        a.http_version@ == b.http_version@,
        a.scheme@ == b.scheme@,
        a.path@ == b.path@,
        a.raw_path@ == b.raw_path@,
        a.query_string@ == b.query_string@,
        a.root_path@ == b.root_path@,
        a.client_host@ == b.client_host@ && a.client_port == b.client_port,
        a.server_host@ == b.server_host@ && a.server_port == b.server_port,
        header_views(a.headers@) == header_views(b.headers@),
{
    scope_shows_the_request(a, has_state);
    scope_shows_the_request(b, has_state);
    let ca = seq![Term::Str(a.client_host@), Term::Int(a.client_port as int)];
    let cb = seq![Term::Str(b.client_host@), Term::Int(b.client_port as int)];
    assert(ca[0] == cb[0] && ca[1] == cb[1]);
    let sa = seq![Term::Str(a.server_host@), Term::Int(a.server_port as int)];
    let sb = seq![Term::Str(b.server_host@), Term::Int(b.server_port as int)];
    assert(sa[0] == sb[0] && sa[1] == sb[1]);
    assert(entries(http_scope(a, has_state))[9] == entries(http_scope(b, has_state))[9]);
    let ha = headers_term(header_views(a.headers@))->List_0;
    let hb = headers_term(header_views(b.headers@))->List_0;
    assert(ha == hb);
    assert(header_views(a.headers@) =~= header_views(b.headers@)) by {
        assert forall|i: int| 0 <= i < ha.len() implies header_views(a.headers@)[i]
            == header_views(b.headers@)[i] by {
            assert(ha[i] == hb[i]);
            assert(ha[i]->Tuple_0[0] == hb[i]->Tuple_0[0]);
            assert(ha[i]->Tuple_0[1] == hb[i]->Tuple_0[1]);
        }
    }
}

/// One entry of a mapping.
pub(crate) fn entry(key: &str, v: Value) -> (r: (String, Value))
    ensures
        r.0@ == key@,
        r.1 == v,
{
    (key.to_string(), v)
}

/// A text, as a value.
pub(crate) fn text_value(s: &str) -> (r: Value)
    ensures
        r.term() == Term::Str(s@),
{
    Value::Str(s.to_string())
}

/// A byte string, as a value.
pub(crate) fn bytes_value(b: &Vec<u8>) -> (r: Value)
    ensures
        r.term() == Term::Bytes(b@),
{
    Value::Bytes(copy_bytes(b.as_slice()))
}

/// An empty mapping.
pub(crate) fn empty_dict() -> (r: Value)
    ensures
        r.term() == Term::Dict(Seq::empty()),
{
    let v: Vec<(String, Value)> = Vec::new();
    assert(value::fields(v@) =~= Seq::empty());
    Value::Dict(v)
}

/// The entry `asgi` of every scope.
pub(crate) fn version_value() -> (r: Value)
    ensures
        r.term() == version_term(),
{
    let mut v: Vec<(String, Value)> = Vec::new();
    v.push(entry("version", text_value("3.0")));
    v.push(entry("spec_version", text_value("2.5")));
    assert(value::fields(v@) =~= seq![
        ("version"@, Term::Str("3.0"@)),
        ("spec_version"@, Term::Str("2.5"@)),
    ]);
    Value::Dict(v)
}

/// The headers of a scope.
pub(crate) fn headers_value(headers: &Vec<(Vec<u8>, Vec<u8>)>) -> (r: Value)
    ensures
        r.term() == headers_term(header_views(headers@)),
{
    let mut out: Vec<Value> = Vec::new();
    let mut i: usize = 0;
    while i < headers.len()
        invariant
            i <= headers@.len(),
            out@.len() == i,
            forall|j: int|
                0 <= j < i ==> (#[trigger] out@[j]).term() == Term::Tuple(
                    seq![Term::Bytes(headers@[j].0@), Term::Bytes(headers@[j].1@)],
                ),
        decreases headers@.len() - i,
    {
        let mut pair: Vec<Value> = Vec::new();
        pair.push(bytes_value(&headers[i].0));
        pair.push(bytes_value(&headers[i].1));
        proof {
            assert(value::terms(pair@) =~= seq![
                Term::Bytes(headers@[i as int].0@),
                Term::Bytes(headers@[i as int].1@),
            ]);
        }
        out.push(Value::Tuple(pair));
        i += 1;
    }
    proof {
        assert(value::terms(out@) =~= header_views(headers@).map_values(
            |h: (Seq<u8>, Seq<u8>)| Term::Tuple(seq![Term::Bytes(h.0), Term::Bytes(h.1)]),
        ));
    }
    Value::List(out)
}

/// An address of a scope.
pub(crate) fn address_value(host: &str, port: u16) -> (r: Value)
    ensures
        r.term() == address_term(host@, port),
{
    let mut v: Vec<Value> = Vec::new();
    v.push(text_value(host));
    v.push(Value::Int(port as i64));
    assert(value::terms(v@) =~= seq![Term::Str(host@), Term::Int(port as int)]);
    Value::Tuple(v)
}

/// The entry `state` of a scope.
pub(crate) fn state_value(has_state: bool) -> (r: Value)
    ensures
        r.term() == state_term(has_state),
{
    if has_state {
        Value::State
    } else {
        empty_dict()
    }
}

/// The scope that the application is called with for an HTTP request.
/// `has_state` tells whether the lifespan handshake handed over a state.
pub fn build_http_scope(req: &RequestData, has_state: bool) -> (r: Value)
    ensures
        r.term() == http_scope(*req, has_state),
{
    let mut scope: Vec<(String, Value)> = Vec::new();
    scope.push(entry("type", text_value("http")));
    scope.push(entry("asgi", version_value()));
    scope.push(entry("http_version", text_value(req.http_version.as_str())));
    scope.push(entry("method", text_value(req.method.as_str())));
    scope.push(entry("scheme", text_value(req.scheme.as_str())));
    scope.push(entry("path", text_value(req.path.as_str())));
    scope.push(entry("raw_path", bytes_value(&req.raw_path)));
    scope.push(entry("query_string", bytes_value(&req.query_string)));
    scope.push(entry("root_path", text_value(req.root_path.as_str())));
    scope.push(entry("headers", headers_value(&req.headers)));
    scope.push(entry("client", address_value(req.client_host.as_str(), req.client_port)));
    scope.push(entry("server", address_value(req.server_host.as_str(), req.server_port)));
    scope.push(entry("extensions", empty_dict()));
    scope.push(entry("state", state_value(has_state)));
    proof {
        assert(value::fields(scope@) =~= http_scope(*req, has_state)->Dict_0);
    }
    Value::Dict(scope)
}

/// The message that hands a chunk of the request's body to the application.
pub open spec fn request_term(chunk: Seq<u8>, more_body: bool) -> Term {
    Term::Dict(
        seq![
            ("type"@, Term::Str("http.request"@)),
            ("body"@, Term::Bytes(chunk)),
            ("more_body"@, Term::Bool(more_body)),
        ],
    )
}

/// A message hands over the chunk, and says whether more follows.
pub proof fn request_hands_over_the_chunk(chunk: Seq<u8>, more_body: bool)
    ensures
        ({
            let m = entries(request_term(chunk, more_body));
            &&& value::lookup(m, "type"@) == Some(Term::Str("http.request"@))
            &&& value::lookup(m, "body"@) == Some(Term::Bytes(chunk))
            &&& value::lookup(m, "more_body"@) == Some(Term::Bool(more_body))
        }),
{
    keys_differ();
    let m = entries(request_term(chunk, more_body));
    lookup_at(m, "type"@, 0);
    assert forall|j: int| 0 <= j < 1 implies (#[trigger] m[j]).0 != "body"@ by {
        assert(j == 0);
    }
    lookup_at(m, "body"@, 1);
    assert forall|j: int| 0 <= j < 2 implies (#[trigger] m[j]).0 != "more_body"@ by {
        assert(j == 0 || j == 1);
    }
    lookup_at(m, "more_body"@, 2);
}

/// The message that hands a chunk of the request's body to the application.
pub fn request_message(chunk: &Vec<u8>, more_body: bool) -> (r: Value)
    ensures
        r.term() == request_term(chunk@, more_body),
{
    let mut v: Vec<(String, Value)> = Vec::new();
    v.push(entry("type", text_value("http.request")));
    v.push(entry("body", bytes_value(chunk)));
    v.push(entry("more_body", Value::Bool(more_body)));
    assert(value::fields(v@) =~= request_term(chunk@, more_body)->Dict_0);
    Value::Dict(v)
}

/// The message that ends the request's body.
pub fn terminal_message() -> (r: Value)
    ensures
        r.term() == request_term(Seq::empty(), false),
{
    let empty: Vec<u8> = Vec::new();
    assert(empty@ =~= Seq::empty());
    request_message(&empty, false)
}

/// What the application receives first, without any queue: the terminal
/// message where the request has no body, else nothing in advance.
pub fn first_message(req: &RequestData) -> (r: Option<Value>)
    ensures
        r is Some <==> !req.has_body,
        r matches Some(v) ==> v.term() == request_term(Seq::empty(), false),
{
    if req.has_body {
        None
    } else {
        Some(terminal_message())
    }
}

/// The message that tells the application that the client is gone.
pub fn disconnect_message() -> (r: Value)
    ensures
        r.term() == Term::Dict(seq![("type"@, Term::Str("http.disconnect"@))]),
{
    let mut v: Vec<(String, Value)> = Vec::new();
    v.push(entry("type", text_value("http.disconnect")));
    assert(value::fields(v@) =~= seq![("type"@, Term::Str("http.disconnect"@))]);
    Value::Dict(v)
}

/// Whether a queue can be made off the loop's thread, by the version of the
/// interpreter: since 3.10. An unknown version counts as 3.8.
pub fn direct_queue(version: Option<(u8, u8)>) -> (r: bool)
    ensures
        r == (version matches Some(v) && (v.0 > 3 || v.0 == 3 && v.1 >= 10)),
{
    match version {
        Some((major, minor)) => major > 3 || (major == 3 && minor >= 10),
        None => false,
    }
}

/// Where the set-up of a call stands.
#[derive(Debug, Clone, Copy, PartialEq, Eq, Structural)]
pub enum Establishing {
    /// Everything is built in one attachment to the interpreter.
    Direct,
    /// The coroutine that makes the channel is built and scheduled.
    Init,
    /// The channel is waited for.
    Channel,
    /// The channel is taken apart.
    Unpack,
    /// The scope is built and the application is scheduled.
    Submit,
    Ready,
    InitFailed,
    SubmitFailed,
}

impl Establishing {
    /// The next stage, by the outcome of the present one.
    pub open spec fn after(self, ok: bool) -> Establishing {
        match self {
            Establishing::Direct => if ok { Establishing::Ready } else { Establishing::InitFailed },
            Establishing::Init => if ok { Establishing::Channel } else { Establishing::InitFailed },
            Establishing::Channel => if ok { Establishing::Unpack } else { Establishing::InitFailed },
            Establishing::Unpack => if ok { Establishing::Submit } else { Establishing::InitFailed },
            Establishing::Submit => if ok { Establishing::Ready } else { Establishing::SubmitFailed },
            _ => self,
        }
    }

    /// Whether the outcome counts as an attachment to the interpreter.
    pub open spec fn attaches(self, ok: bool) -> bool {
        ok && (self is Direct || self is Init || self is Unpack || self is Submit)
    }

    /// Whether the set-up is over.
    pub open spec fn settled(self) -> bool {
        self is Ready || self is InitFailed || self is SubmitFailed
    }

    /// The stages passed and the attachments counted, where every outcome is
    /// good.
    pub open spec fn good_run(self, fuel: nat) -> (Establishing, nat)
        decreases fuel,
    {
        if fuel == 0 || self.settled() {
            (self, 0)
        } else {
            let rest = self.after(true).good_run((fuel - 1) as nat);
            (rest.0, rest.1 + if self.attaches(true) { 1nat } else { 0nat })
        }
    }
}

/// The first stage of the set-up of a call.
pub fn establish_http_call(direct_queue: bool) -> (r: Establishing)
    ensures
        r == if direct_queue {
            Establishing::Direct
        } else {
            Establishing::Init
        },
{
    if direct_queue {
        Establishing::Direct
    } else {
        Establishing::Init
    }
}

/// The next stage of the set-up of a call; attachments are counted.
pub fn establish_step(metrics: &mut Metrics, stage: Establishing, ok: bool) -> (r: Establishing)
    requires
        old(metrics)@.sized(),
    ensures
        r == stage.after(ok),
        final(metrics)@.sized(),
        final(metrics)@ == if stage.attaches(ok) {
            old(metrics)@.counted(metrics::C_ATTACH as int)
        } else {
            old(metrics)@
        },
{
    match stage {
        Establishing::Direct => if ok {
            metrics::inc(metrics, metrics::C_ATTACH);
            Establishing::Ready
        } else {
            Establishing::InitFailed
        },
        Establishing::Init => if ok {
            metrics::inc(metrics, metrics::C_ATTACH);
            Establishing::Channel
        } else {
            Establishing::InitFailed
        },
        Establishing::Channel => if ok {
            Establishing::Unpack
        } else {
            Establishing::InitFailed
        },
        Establishing::Unpack => if ok {
            metrics::inc(metrics, metrics::C_ATTACH);
            Establishing::Submit
        } else {
            Establishing::InitFailed
        },
        Establishing::Submit => if ok {
            metrics::inc(metrics, metrics::C_ATTACH);
            Establishing::Ready
        } else {
            Establishing::SubmitFailed
        },
        _ => stage,
    }
}

/// The text of a set-up that failed.
pub fn establish_error(stage: Establishing) -> (r: Option<&'static str>)
    ensures
        match stage {
            Establishing::InitFailed => r matches Some(s) && s@ == "ASGI channel init failed"@,
            Establishing::SubmitFailed => r matches Some(s) && s@ == "ASGI submit failed"@,
            _ => r is None,
        },
{
    match stage {
        Establishing::InitFailed => Some("ASGI channel init failed"),
        Establishing::SubmitFailed => Some("ASGI submit failed"),
        _ => None,
    }
}

/// With a queue that can be made anywhere, a call is set up in a single
/// attachment to the interpreter; without, in three. A stage that fails ends
/// the set-up.
pub proof fn direct_set_up_attaches_once(stage: Establishing)
    ensures
        Establishing::Direct.good_run(5) == (Establishing::Ready, 1nat),
        Establishing::Init.good_run(5) == (Establishing::Ready, 3nat),
        stage.after(false).settled(),
        stage.settled() ==> forall|ok: bool| stage.after(ok) == stage,
{
    reveal_with_fuel(Establishing::good_run, 6);
}

/// How putting a message into the application's queue ended.
#[derive(Debug, Clone, Copy, PartialEq, Eq, Structural)]
pub enum QueuePut {
    Done,
    SubmitFailed,
    TimedOut,
    Failed,
}

/// The outcome of handing over one message: the error's text where it failed.
pub fn feed_message(put: QueuePut) -> (r: Result<(), &'static str>)
    ensures
        r is Ok <==> put is Done,
        put is SubmitFailed ==> (r matches Err(s) && s@ == "request queue submit failed"@),
        put is TimedOut ==> (r matches Err(s) && s@ == "request queue put timed out"@),
        put is Failed ==> (r matches Err(s) && s@ == "request queue put failed"@),
{
    match put {
        QueuePut::Done => Ok(()),
        QueuePut::SubmitFailed => Err("request queue submit failed"),
        QueuePut::TimedOut => Err("request queue put timed out"),
        QueuePut::Failed => Err("request queue put failed"),
    }
}

/// The warning to print after telling the application that the client is
/// gone: none where that worked.
pub fn feed_disconnect(put: QueuePut) -> (r: Option<&'static str>)
    ensures
        r is None <==> put is Done,
        put is SubmitFailed ==> (r matches Some(s) && s@ == "disconnect submit failed"@),
        put is TimedOut ==> (r matches Some(s) && s@ == "disconnect wait timed out"@),
        put is Failed ==> (r matches Some(s) && s@ == "disconnect wait failed"@),
{
    match put {
        QueuePut::Done => None,
        QueuePut::SubmitFailed => Some("disconnect submit failed"),
        QueuePut::TimedOut => Some("disconnect wait timed out"),
        QueuePut::Failed => Some("disconnect wait failed"),
    }
}

/// The value of a hexadecimal digit, in either case.
pub open spec fn hex(b: u8) -> Option<u8> {
    if 48 <= b <= 57 {
        Some((b - 48) as u8)
    } else if 97 <= b <= 102 {
        Some((b - 87) as u8)
    } else if 65 <= b <= 70 {
        Some((b - 55) as u8)
    } else {
        None
    }
}

fn hex_val(b: u8) -> (r: Option<u8>)
    ensures
        r == hex(b),
{
    if 48 <= b && b <= 57 {
        Some(b - 48)
    } else if 97 <= b && b <= 102 {
        Some(b - 87)
    } else if 65 <= b && b <= 70 {
        Some(b - 55)
    } else {
        None
    }
}

/// Whether an escape stands at the front: a percent sign and two digits.
pub open spec fn escape_first(b: Seq<u8>) -> bool {
    b.len() >= 3 && b[0] == 37 && hex(b[1]) is Some && hex(b[2]) is Some
}

/// The bytes with every escape replaced by the byte that it stands for, from
/// left to right. A percent sign that starts no escape stands for itself.
pub open spec fn unescaped(b: Seq<u8>) -> Seq<u8>
    decreases b.len(),
{
    if b.len() == 0 {
        Seq::empty()
    } else if escape_first(b) {
        seq![(hex(b[1])->0 * 16 + hex(b[2])->0) as u8] + unescaped(b.skip(3))
    } else {
        seq![b[0]] + unescaped(b.skip(1))
    }
}

/// Resolving escapes never makes bytes more.
pub proof fn unescaping_shrinks(b: Seq<u8>)
    ensures
        unescaped(b).len() <= b.len(),
    decreases b.len(),
{
    if b.len() > 0 {
        if escape_first(b) {
            unescaping_shrinks(b.skip(3));
        } else {
            unescaping_shrinks(b.skip(1));
        }
    }
}

/// What reading bytes as UTF-8 gives, with replacements where they are none.
pub uninterp spec fn utf8_lossy(b: Seq<u8>) -> Seq<char>;

/// `String::from_utf8_lossy`: the text that the bytes spell in UTF-8. Where
/// they are no UTF-8, invalid parts are replaced; which text comes out is then
/// a function of the bytes, left unsaid here.
#[verifier::external_body]
pub(crate) fn from_utf8_lossy(b: &[u8]) -> (r: String)
    ensures
        r@ == utf8_lossy(b@),
        valid_utf8(b@) ==> r@ == decode_utf8(b@),
{
    String::from_utf8_lossy(b).into_owned()
}

/// The text that bytes spell in UTF-8, with replacements where they are none.
pub open spec fn spelled(b: Seq<u8>) -> Seq<char> {
    if valid_utf8(b) {
        decode_utf8(b)
    } else {
        utf8_lossy(b)
    }
}

/// The digit of a number below sixteen; `letters` is the letter for ten.
pub open spec fn hex_digit(d: int, letters: int) -> u8 {
    if d < 10 {
        (48 + d) as u8
    } else {
        (letters + d - 10) as u8
    }
}

/// Bytes with every one of them escaped.
pub open spec fn escaped(b: Seq<u8>, letters: int) -> Seq<u8>
    decreases b.len(),
{
    if b.len() == 0 {
        Seq::empty()
    } else {
        seq![37u8, hex_digit(b[0] as int / 16, letters), hex_digit(b[0] as int % 16, letters)]
            + escaped(b.skip(1), letters)
    }
}

/// Whatever is escaped comes back, byte for byte, with digits in upper or in
/// lower case.
pub proof fn unescaping_undoes_escaping(b: Seq<u8>, letters: int)
    requires
        letters == 65 || letters == 97,
    ensures
        unescaped(escaped(b, letters)) == b,
    decreases b.len(),
{
    if b.len() > 0 {
        let front = seq![
            37u8,
            hex_digit(b[0] as int / 16, letters),
            hex_digit(b[0] as int % 16, letters),
        ];
        let all = escaped(b, letters);
        unescaping_undoes_escaping(b.skip(1), letters);
        assert(all.skip(3) =~= escaped(b.skip(1), letters));
        assert(all[0] == 37 && all[1] == front[1] && all[2] == front[2]);
        assert(hex(all[1]) == Some((b[0] / 16) as u8));
        assert(hex(all[2]) == Some((b[0] % 16) as u8));
        assert(b =~= seq![b[0]] + b.skip(1));
    } else {
        assert(unescaped(escaped(b, letters)) =~= b);
    }
}

/// Whether a byte is a hexadecimal digit: from 0 to 9, A to F or a to f.
pub open spec fn is_hex_digit(b: u8) -> bool {
    48 <= b <= 57 || 65 <= b <= 70 || 97 <= b <= 102
}

/// A byte that starts no escape stands for itself, before whatever follows; so
/// does a percent sign without two hexadecimal digits behind it.
pub proof fn other_bytes_stand(b: Seq<u8>)
    requires
        b.len() > 0,
        b[0] != 37 || b.len() <= 2 || !is_hex_digit(b[1]) || !is_hex_digit(b[2]),
    ensures
        unescaped(b) == seq![b[0]] + unescaped(b.skip(1)),
{
}

/// The text that bytes spell is the one whose encoding they are.
pub proof fn spelling_undoes_encoding(s: Seq<char>)
    ensures
        spelled(encode_utf8(s)) == s,
{
    encode_utf8_valid_utf8(s);
    encode_utf8_decode_utf8(s);
}

/// Set-up goes through its stages in order; which one failed decides how the
/// failure is called.
pub proof fn set_up_goes_in_order(stage: Establishing)
    ensures
        Establishing::Init.after(true).after(true).after(true) is Submit,
        Establishing::Submit.after(true) is Ready,
        Establishing::Direct.after(true) is Ready,
        stage.after(false) is SubmitFailed <==> stage is Submit || stage is SubmitFailed,
        stage.after(false) is Ready <==> stage is Ready,
        stage.attaches(true) ==> !stage.settled(),
        !stage.attaches(false),
{
}

/// Bytes without a percent sign stand for themselves.
pub proof fn unescaped_plain(b: Seq<u8>)
    requires
        forall|i: int| 0 <= i < b.len() ==> b[i] != 37,
    ensures
        unescaped(b) == b,
    decreases b.len(),
{
    if b.len() > 0 {
        unescaped_plain(b.skip(1));
        assert(seq![b[0]] + b.skip(1) =~= b);
    }
}

/// A text without a percent sign has none in its bytes.
proof fn plain_encoding(s: Seq<char>)
    requires
        forall|i: int| 0 <= i < s.len() ==> s[i] != '%',
    ensures
        forall|i: int| 0 <= i < encode_utf8(s).len() ==> encode_utf8(s)[i] != 37,
    decreases s.len(),
{
    if s.len() > 0 {
        let c = s[0] as u32;
        assert(forall|i: int| 0 <= i < encode_scalar(c).len() ==> encode_scalar(c)[i] != 37) by {
            char_is_scalar(s[0]);
            char_u32_cast(s[0], c);
            assert(s[0] != '%');
            assert(c != 37);
            assert(c <= 0x7f && c != 37 ==> (c & 0x7f) as u8 != 37) by (bit_vector);
            assert(0xC0 | (((c >> 6) & 0x1F) as u8) != 37) by (bit_vector);
            assert(0xE0 | (((c >> 12) & 0x0F) as u8) != 37) by (bit_vector);
            assert(0xF0 | (((c >> 18) & 0x07) as u8) != 37) by (bit_vector);
            assert(0x80 | ((c & 0x3F) as u8) != 37) by (bit_vector);
            assert(0x80 | (((c >> 6) & 0x3F) as u8) != 37) by (bit_vector);
            assert(0x80 | (((c >> 12) & 0x3F) as u8) != 37) by (bit_vector);
        }
        plain_encoding(s.drop_first());
        let first = encode_scalar(c);
        let rest = encode_utf8(s.drop_first());
        assert(encode_utf8(s) == first + rest);
        assert forall|i: int| 0 <= i < encode_utf8(s).len() implies encode_utf8(s)[i] != 37 by {
            if i < first.len() {
                assert((first + rest)[i] == first[i]);
            } else {
                assert((first + rest)[i] == rest[i - first.len()]);
            }
        }
    }
}

/// The path of a request with its escapes resolved. A text without a percent
/// sign is left as it is.
pub fn percent_decode(input: &str) -> (r: String)
    ensures
        r@ == spelled(unescaped(encode_utf8(input@))),
        !input@.contains('%') ==> r@ == input@,
{
    let bytes: &[u8] = input.as_bytes();
    let total: usize = bytes.len();
    let mut out: Vec<u8> = Vec::new();
    let mut i: usize = 0;
    proof {
        assert(bytes@.skip(0) =~= bytes@);
    }
    while i < total
        invariant
            i <= total,
            total == bytes@.len(),
            out@ + unescaped(bytes@.skip(i as int)) == unescaped(bytes@),
        decreases total - i,
    {
        let ghost rest = bytes@.skip(i as int);
        let ghost before = out@;
        if bytes[i] == 37 && total - i > 2 {
            if let (Some(h), Some(l)) = (hex_val(bytes[i + 1]), hex_val(bytes[i + 2])) {
                proof {
                    assert(rest[0] == 37 && rest[1] == bytes@[i + 1] && rest[2] == bytes@[i + 2]);
                    assert(rest.skip(3) =~= bytes@.skip(i + 3));
                }
                out.push(h * 16 + l);
                proof {
                    assert(out@ + unescaped(bytes@.skip(i + 3)) =~= before + unescaped(rest));
                }
                i += 3;
                continue;
            }
        }
        proof {
            assert(!escape_first(rest));
            assert(rest.skip(1) =~= bytes@.skip(i + 1));
        }
        out.push(bytes[i]);
        proof {
            assert(out@ + unescaped(bytes@.skip(i + 1)) =~= before + unescaped(rest));
        }
        i += 1;
    }
    proof {
        assert(out@ =~= unescaped(bytes@));
        if !input@.contains('%') {
            assert forall|k: int| 0 <= k < input@.len() implies input@[k] != '%' by {
                assert(input@.contains(input@[k]));
            }
            plain_encoding(input@);
            unescaped_plain(bytes@);
            encode_utf8_valid_utf8(input@);
            encode_utf8_decode_utf8(input@);
        }
    }
    from_utf8_lossy(out.as_slice())
}

} // verus!
