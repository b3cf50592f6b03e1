//! The head of a request, as plain values, and what is read from it.

use vstd::prelude::*;
use vstd::utf8::*;
use crate::text;
use crate::text::{parse_u64, str_eq, trim};
use crate::value::copy_bytes;

verus! {

/// A version of HTTP.
#[derive(Debug, Clone, Copy, PartialEq, Eq, Structural)]
pub enum Version {
    Http09,
    Http10,
    Http11,
    Http2,
    Http3,
}

/// The head of a request. Names of headers are in lower case; the values of
/// one name stand in the order in which they came.
#[derive(Debug)]
pub struct RequestHead {
    pub method: String,
    pub version: Version,
    pub scheme: Option<String>,
    pub path: String,
    pub query: Option<String>,
    pub headers: Vec<(String, Vec<u8>)>,
}

/// The content of a list of headers.
pub open spec fn pairs(headers: Seq<(String, Vec<u8>)>) -> Seq<(Seq<char>, Seq<u8>)> {
    headers.map_values(|h: (String, Vec<u8>)| (h.0@, h.1@))
}

/// The same headers with their names as bytes.
pub open spec fn raw_pairs(headers: Seq<(Seq<char>, Seq<u8>)>) -> Seq<(Seq<u8>, Seq<u8>)> {
    headers.map_values(|h: (Seq<char>, Seq<u8>)| (encode_utf8(h.0), h.1))
}

/// The first value under a name.
pub open spec fn first_value(
    headers: Seq<(Seq<char>, Seq<u8>)>,
    name: Seq<char>,
) -> Option<Seq<u8>>
    decreases headers.len(),
{
    if headers.len() == 0 {
        None
    } else if headers[0].0 == name {
        Some(headers[0].1)
    } else {
        first_value(headers.skip(1), name)
    }
}

/// The first value under a name.
pub fn first_header<'a>(headers: &'a Vec<(String, Vec<u8>)>, name: &str) -> (r: Option<
    &'a Vec<u8>,
>)
    ensures
        r is Some <==> first_value(pairs(headers@), name@) is Some,
        r matches Some(v) ==> first_value(pairs(headers@), name@) == Some(v@),
{
    let mut i: usize = 0;
    let ghost all = pairs(headers@);
    proof {
        assert(all.skip(0) =~= all);
    }
    while i < headers.len()
        invariant
            i <= headers@.len(),
            all == pairs(headers@),
            first_value(all, name@) == first_value(all.skip(i as int), name@),
        decreases headers@.len() - i,
    {
        proof {
            assert(all.skip(i as int)[0] == all[i as int]);
            assert(all.skip(i as int).skip(1) =~= all.skip(i + 1));
        }
        if str_eq(headers[i].0.as_str(), name) {
            return Some(&headers[i].1);
        }
        i += 1;
    }
    None
}

/// Whether a byte is visible ASCII, a space or a tab.
pub open spec fn is_visible(b: u8) -> bool {
    32 <= b < 127 || b == 9
}

/// The text of a header's value, where all of it is visible ASCII.
pub open spec fn visible(value: Seq<u8>) -> Option<Seq<char>> {
    if forall|i: int| 0 <= i < value.len() ==> is_visible(#[trigger] value[i]) {
        Some(value.map_values(|b: u8| b as char))
    } else {
        None
    }
}

/// The text of a header's value, where all of it is visible ASCII.
pub fn visible_text(value: &Vec<u8>) -> (r: Option<String>)
    ensures
        r is Some <==> visible(value@) is Some,
        r matches Some(s) ==> visible(value@) == Some(s@),
{
    let mut out = String::new();
    let mut i: usize = 0;
    while i < value.len()
        invariant
            i <= value@.len(),
            forall|j: int| 0 <= j < i ==> is_visible(#[trigger] value@[j]),
            out@ == value@.take(i as int).map_values(|b: u8| b as char),
        decreases value@.len() - i,
    {
        let b: u8 = value[i];
        if !((32 <= b && b < 127) || b == 9) {
            assert(!is_visible(value@[i as int]));
            return None;
        }
        out.push(b as char);
        i += 1;
        proof {
            assert(out@ =~= value@.take(i as int).map_values(|b: u8| b as char));
        }
    }
    proof {
        assert(value@.take(value@.len() as int) =~= value@);
    }
    Some(out)
}

/// Whether the value of a `content-length` header says that there is no body.
pub open spec fn says_zero(value: Seq<u8>) -> bool {
    match visible(value) {
        Some(s) => text::parsed_number(text::trimmed(s), u64::MAX as nat) == Some(0nat),
        None => false,
    }
}

/// Whether a header announces a body: any `transfer-encoding`, or a
/// `content-length` other than zero. One that is no number counts as other
/// than zero.
pub open spec fn announces(header: (Seq<char>, Seq<u8>)) -> bool {
    ||| header.0 == "transfer-encoding"@
    ||| header.0 == "content-length"@ && !says_zero(header.1)
}

/// Whether a body may follow a head.
pub open spec fn announced(headers: Seq<(Seq<char>, Seq<u8>)>) -> bool {
    exists|i: int| 0 <= i < headers.len() && announces(#[trigger] headers[i])
}

fn is_zero(value: &Vec<u8>) -> (r: bool)
    ensures
        r == says_zero(value@),
{
    match visible_text(value) {
        None => false,
        Some(s) => {
            let t = trim(s.as_str());
            matches!(parse_u64(t.as_str()), Some(0))
        },
    }
}

/// Whether a body may follow the head with these headers. Without one, the
/// application gets the terminal message in advance.
pub fn has_body(headers: &Vec<(String, Vec<u8>)>) -> (r: bool)
    ensures
        r == announced(pairs(headers@)),
{
    let ghost all = pairs(headers@);
    let mut i: usize = 0;
    while i < headers.len()
        invariant
            i <= headers@.len(),
            all == pairs(headers@),
            forall|j: int| 0 <= j < i ==> !announces(#[trigger] all[j]),
        decreases headers@.len() - i,
    {
        let name = headers[i].0.as_str();
        if str_eq(name, "transfer-encoding") {
            assert(announces(all[i as int]));
            return true;
        }
        if str_eq(name, "content-length") {
            if !is_zero(&headers[i].1) {
                assert(announces(all[i as int]));
                return true;
            }
        }
        assert(!announces(all[i as int]));
        i += 1;
    }
    false
}

/// The headers with their names as bytes.
pub fn raw_headers(headers: &Vec<(String, Vec<u8>)>) -> (r: Vec<(Vec<u8>, Vec<u8>)>)
    ensures
        crate::asgi::header_views(r@) == raw_pairs(pairs(headers@)),
{
    let mut out: Vec<(Vec<u8>, Vec<u8>)> = Vec::new();
    let mut i: usize = 0;
    while i < headers.len()
        invariant
            i <= headers@.len(),
            out@.len() == i,
            forall|j: int|
                0 <= j < i ==> (#[trigger] out@[j]).0@ == encode_utf8(headers@[j].0@)
                    && out@[j].1@ == headers@[j].1@,
        decreases headers@.len() - i,
    {
        out.push(
            (
                copy_bytes(headers[i].0.as_str().as_bytes()),
                copy_bytes(headers[i].1.as_slice()),
            ),
        );
        i += 1;
    }
    assert(crate::asgi::header_views(out@) =~= raw_pairs(pairs(headers@)));
    out
}

/// The version of HTTP as a scope of an HTTP request names it.
pub open spec fn version_name(v: Version) -> Seq<char> {
    match v {
        Version::Http10 => "1.0"@,
        Version::Http2 => "2"@,
        Version::Http3 => "3"@,
        _ => "1.1"@,
    }
}

/// The version of HTTP as a scope of a WebSocket names it.
pub open spec fn upgrade_version_name(v: Version) -> Seq<char> {
    match v {
        Version::Http10 => "1.0"@,
        Version::Http2 => "2"@,
        _ => "1.1"@,
    }
}

/// The first value under a name stands under this name, and no header before
/// it does; there is none only where no header has the name.
pub proof fn first_value_comes_first(headers: Seq<(Seq<char>, Seq<u8>)>, name: Seq<char>)
    ensures
        match first_value(headers, name) {
            Some(v) => exists|i: int|
                0 <= i < headers.len() && (#[trigger] headers[i]) == (name, v) && forall|j: int|
                    0 <= j < i ==> (#[trigger] headers[j]).0 != name,
            None => forall|i: int| 0 <= i < headers.len() ==> (#[trigger] headers[i]).0 != name,
        },
    decreases headers.len(),
{
    if headers.len() > 0 && headers[0].0 != name {
        let rest = headers.skip(1);
        first_value_comes_first(rest, name);
        match first_value(rest, name) {
            Some(v) => {
                let i = choose|i: int|
                    0 <= i < rest.len() && (#[trigger] rest[i]) == (name, v) && forall|j: int|
                        0 <= j < i ==> (#[trigger] rest[j]).0 != name;
                assert(headers[i + 1] == (name, v));
                assert forall|j: int| 0 <= j < i + 1 implies (#[trigger] headers[j]).0 != name by {
                    if j > 0 {
                        assert(rest[j - 1] == headers[j]);
                    }
                }
            },
            None => {
                assert forall|i: int| 0 <= i < headers.len() implies (#[trigger] headers[i]).0
                    != name by {
                    if i > 0 {
                        assert(rest[i - 1] == headers[i]);
                    }
                }
            },
        }
    } else if headers.len() > 0 {
        assert(headers[0] == (name, headers[0].1));
    }
}

/// A value has a text where every byte is a printable ASCII character, a blank
/// or a tab; the text then holds just these characters.
pub proof fn visible_text_is_the_value(value: Seq<u8>)
    ensures
        visible(value) is Some <==> forall|i: int|
            0 <= i < value.len() ==> 32 <= (#[trigger] value[i]) <= 126 || value[i] == 9,
        visible(value) matches Some(s) ==> s.len() == value.len() && forall|i: int|
            0 <= i < s.len() ==> (#[trigger] s[i]) as u32 == value[i] as u32,
{
    if forall|i: int| 0 <= i < value.len() ==> 32 <= (#[trigger] value[i]) <= 126 || value[i] == 9 {
        assert forall|i: int| 0 <= i < value.len() implies is_visible(#[trigger] value[i]) by {}
    }
    if visible(value) is Some {
        assert forall|i: int| 0 <= i < value.len() implies 32 <= (#[trigger] value[i]) <= 126
            || value[i] == 9 by {
            assert(is_visible(value[i]));
        }
    }
}

/// The bytes of an ASCII text.
pub open spec fn ascii(s: Seq<char>) -> Seq<u8> {
    s.map_values(|c: char| c as u8)
}

/// For every number, a `content-length` that is its decimal notation says that
/// there is no body if and only if the number is zero. Whatever says so holds
/// no digit but zeros.
pub proof fn length_says_zero(n: nat, value: Seq<u8>)
    ensures
        says_zero(ascii(text::decimal(n))) <==> n == 0,
        says_zero(value) ==> forall|i: int|
            0 <= i < value.len() ==> {
                ||| (#[trigger] value[i]) == 48
                ||| value[i] == 43
                ||| value[i] == 32
                ||| value[i] == 9
            },
{
    let d = text::decimal(n);
    text::decimal_stands_for_its_number(n);
    text::numbers_are_read_back(n, u64::MAX as nat, d, 0);
    assert forall|i: int| 0 <= i < ascii(d).len() implies is_visible(#[trigger] ascii(d)[i]) by {
        assert(text::is_digit(d[i]));
    }
    assert(ascii(d).map_values(|b: u8| b as char) =~= d) by {
        assert forall|i: int| 0 <= i < d.len() implies (ascii(d)[i] as char) == d[i] by {
            assert(text::is_digit(d[i]));
        }
    }
    assert(text::is_digit(d[0]) && text::is_digit(d[d.len() - 1]));
    text::white_space_is_invisible(d[0]);
    text::white_space_is_invisible(d.last());
    text::trimming_leaves_the_rest(d);
    if says_zero(value) {
        let s = visible(value)->0;
        text::trimming_takes_the_ends(s);
        let (a, b) = choose|a: int, b: int|
            {
                &&& 0 <= a <= b <= s.len()
                &&& text::trimmed(s) == #[trigger] s.subrange(a, b)
                &&& forall|i: int|
                    0 <= i < s.len() && !(a <= i < b) ==> text::is_white(#[trigger] s[i])
                &&& a < b ==> !text::is_white(s[a]) && !text::is_white(s[b - 1])
            };
        let t = text::trimmed(s);
        let digits = if t.len() > 0 && t[0] == '+' {
            t.skip(1)
        } else {
            t
        };
        zeros(digits);
        assert forall|i: int| 0 <= i < value.len() implies {
            ||| (#[trigger] value[i]) == 48
            ||| value[i] == 43
            ||| value[i] == 32
            ||| value[i] == 9
        } by {
            assert(is_visible(value[i]));
            assert(s[i] == value[i] as char);
            if a <= i < b {
                assert(t[i - a] == s[i]);
                if t[0] == '+' {
                    if i > a {
                        assert(digits[i - a - 1] == s[i]);
                    }
                } else {
                    assert(digits[i - a] == s[i]);
                }
            } else {
                assert(text::is_white(s[i]));
                text::white_space_is_invisible(s[i]);
            }
        }
    }
}

/// A run of digits that stands for zero holds nothing but zeros.
proof fn zeros(s: Seq<char>)
    requires
        text::all_digits(s),
        text::digits_value(s) == 0,
    ensures
        forall|i: int| 0 <= i < s.len() ==> (#[trigger] s[i]) == '0',
    decreases s.len(),
{
    if s.len() > 0 {
        let front = s.drop_last();
        assert(text::is_digit(s[s.len() - 1]));
        assert forall|i: int| 0 <= i < front.len() implies text::is_digit(#[trigger] front[i]) by {
            assert(front[i] == s[i]);
        }
        zeros(front);
        assert forall|i: int| 0 <= i < s.len() implies (#[trigger] s[i]) == '0' by {
            if i < front.len() {
                assert(front[i] == s[i]);
            }
        }
    }
}

/// A head announces a body where its length is positive, whatever else it
/// holds, and where it has a `transfer-encoding`. Without either it announces
/// none: a length of zero, in any number of headers, is no body.
pub proof fn length_announces_the_body(headers: Seq<(Seq<char>, Seq<u8>)>, i: int, n: nat)
    requires
        0 <= i < headers.len(),
    ensures
        headers[i] == ("content-length"@, ascii(text::decimal(n))) && n > 0 ==> announced(headers),
        headers[i].0 == "transfer-encoding"@ ==> announced(headers),
        (forall|j: int|
            0 <= j < headers.len() ==> (#[trigger] headers[j]).0 != "transfer-encoding"@ && (
            headers[j].0 == "content-length"@ ==> headers[j].1 == ascii(text::decimal(0))))
            ==> !announced(headers),
        !announced(headers) && headers[i].0 == "content-length"@ ==> forall|k: int|
            0 <= k < headers[i].1.len() ==> !(49 <= #[trigger] headers[i].1[k] <= 57),
{
    length_says_zero(n, headers[i].1);
    length_says_zero(0, headers[i].1);
    assert(announces(headers[i]) ==> announced(headers));
}

/// A header of another name announces nothing, wherever it stands.
pub proof fn other_headers_announce_nothing(
    headers: Seq<(Seq<char>, Seq<u8>)>,
    at: int,
    other: (Seq<char>, Seq<u8>),
)
    requires
        0 <= at <= headers.len(),
        other.0 != "content-length"@,
        other.0 != "transfer-encoding"@,
    ensures
        announced(headers.insert(at, other)) == announced(headers),
{
    let more = headers.insert(at, other);
    if announced(headers) {
        let i = choose|i: int| 0 <= i < headers.len() && announces(#[trigger] headers[i]);
        assert(more[if i < at { i } else { i + 1 }] == headers[i]);
    }
    if announced(more) {
        let i = choose|i: int| 0 <= i < more.len() && announces(#[trigger] more[i]);
        assert(i != at);
        assert(headers[if i < at { i } else { i - 1 }] == more[i]);
    }
}

/// No header is lost, moved or changed when names become bytes.
pub proof fn raw_pairs_keep_all(headers: Seq<(Seq<char>, Seq<u8>)>)
    ensures
        raw_pairs(headers).len() == headers.len(),
        forall|i: int|
            0 <= i < headers.len() ==> decode_utf8((#[trigger] raw_pairs(headers)[i]).0)
                == headers[i].0 && raw_pairs(headers)[i].1 == headers[i].1,
{
    assert forall|i: int| 0 <= i < headers.len() implies decode_utf8(
        (#[trigger] raw_pairs(headers)[i]).0,
    ) == headers[i].0 && raw_pairs(headers)[i].1 == headers[i].1 by {
        encode_utf8_decode_utf8(headers[i].0);
    }
}

/// A version is named by its number; where a scope knows no such number it is
/// that of HTTP/1.1.
pub proof fn versions_are_numbers(v: Version)
    ensures
        version_name(Version::Http10) == "1.0"@,
        version_name(Version::Http11) == "1.1"@,
        version_name(Version::Http2) == "2"@,
        version_name(Version::Http3) == "3"@,
        version_name(Version::Http09) == "1.1"@,
        upgrade_version_name(v) == if v is Http3 {
            "1.1"@
        } else {
            version_name(v)
        },
{
}

impl Version {
    /// The version as a scope of an HTTP request names it.
    pub fn name(self) -> (r: &'static str)
        ensures
            r@ == version_name(self),
    {
        match self {
            Version::Http10 => "1.0",
            Version::Http2 => "2",
            Version::Http3 => "3",
            _ => "1.1",
        }
    }

    /// The version as a scope of a WebSocket names it.
    pub fn upgrade_name(self) -> (r: &'static str)
        ensures
            r@ == upgrade_version_name(self),
    {
        match self {
            Version::Http10 => "1.0",
            Version::Http2 => "2",
            _ => "1.1",
        }
    }
}

} // verus!
