//! Plain values that stand for the objects exchanged with an application.
//!
//! Messages and scopes cross the language border as trees of [`Value`]; the
//! rules of the server read and build such trees only.

use vstd::prelude::*;
use crate::text::str_eq;

verus! {

/// One object of a message or a scope.
pub enum Value {
    /// The null object.
    Null,
    Bool(bool),
    /// An integer. One outside this range counts as [`Value::Other`].
    Int(i64),
    Str(String),
    Bytes(Vec<u8>),
    ByteArray(Vec<u8>),
    /// A sequence that can grow, or one of a kind not listed here.
    List(Vec<Value>),
    /// A fixed sequence.
    Tuple(Vec<Value>),
    /// A mapping with text keys, in order of insertion.
    Dict(Vec<(String, Value)>),
    /// An iterable that is no sequence, with the items that it yields.
    Iter(Vec<Value>),
    /// In an item's place: the iteration raised an exception there.
    Raised,
    /// The state object that the lifespan handshake handed over.
    State,
    /// Any other object.
    Other,
}

/// The content of a [`Value`].
pub enum Term {
    Null,
    Bool(bool),
    Int(int),
    Str(Seq<char>),
    Bytes(Seq<u8>),
    ByteArray(Seq<u8>),
    List(Seq<Term>),
    Tuple(Seq<Term>),
    Dict(Seq<(Seq<char>, Term)>),
    Iter(Seq<Term>),
    Raised,
    State,
    Other,
}

/// The contents of a list of values.
pub open spec fn terms(v: Seq<Value>) -> Seq<Term>
    decreases v,
{
    Seq::new(
        v.len(),
        |i: int|
            if 0 <= i < v.len() {
                v[i].term()
            } else {
                Term::Null
            },
    )
}

/// The contents of a mapping.
pub open spec fn fields(v: Seq<(String, Value)>) -> Seq<(Seq<char>, Term)>
    decreases v,
{
    Seq::new(
        v.len(),
        |i: int|
            if 0 <= i < v.len() {
                (v[i].0@, v[i].1.term())
            } else {
                (Seq::empty(), Term::Null)
            },
    )
}

impl Value {
    /// The content of this value.
    pub open spec fn term(self) -> Term
        decreases self,
    {
        match self {
            Value::Null => Term::Null,
            Value::Bool(b) => Term::Bool(b),
            Value::Int(n) => Term::Int(n as int),
            Value::Str(s) => Term::Str(s@),
            Value::Bytes(b) => Term::Bytes(b@),
            Value::ByteArray(b) => Term::ByteArray(b@),
            Value::List(v) => Term::List(terms(v@)),
            Value::Tuple(v) => Term::Tuple(terms(v@)),
            Value::Dict(v) => Term::Dict(fields(v@)),
            Value::Iter(v) => Term::Iter(terms(v@)),
            Value::Raised => Term::Raised,
            Value::State => Term::State,
            Value::Other => Term::Other,
        }
    }
}

/// The first entry of a mapping under a key.
pub open spec fn lookup(m: Seq<(Seq<char>, Term)>, key: Seq<char>) -> Option<Term>
    decreases m.len(),
{
    if m.len() == 0 {
        None
    } else if m[0].0 == key {
        Some(m[0].1)
    } else {
        lookup(m.skip(1), key)
    }
}

/// The first entry of the mapping under `key`.
pub fn get_item<'a>(m: &'a Vec<(String, Value)>, key: &str) -> (r: Option<&'a Value>)
    ensures
        r is Some <==> lookup(fields(m@), key@) is Some,
        r matches Some(v) ==> lookup(fields(m@), key@) == Some(v.term()),
{
    let mut i: usize = 0;
    proof {
        assert(fields(m@).skip(0) =~= fields(m@));
    }
    while i < m.len()
        invariant
            i <= m@.len(),
            lookup(fields(m@), key@) == lookup(fields(m@).skip(i as int), key@),
        decreases m@.len() - i,
    {
        proof {
            assert(fields(m@).skip(i as int)[0] == fields(m@)[i as int]);
            assert(fields(m@).skip(i as int).skip(1) =~= fields(m@).skip(i + 1));
        }
        if str_eq(m[i].0.as_str(), key) {
            return Some(&m[i].1);
        }
        i += 1;
    }
    None
}

/// The text of a value, where it is one.
pub open spec fn as_text(t: Term) -> Option<Seq<char>> {
    match t {
        Term::Str(s) => Some(s),
        _ => None,
    }
}

/// The truth value of a value, where it is one.
pub open spec fn as_bool(t: Term) -> Option<bool> {
    match t {
        Term::Bool(b) => Some(b),
        _ => None,
    }
}

/// The number of a value, where it is an integer from 0 to 65535. A truth
/// value counts as an integer.
pub open spec fn as_u16(t: Term) -> Option<int> {
    match t {
        Term::Bool(b) => Some(if b { 1int } else { 0int }),
        Term::Int(n) => if 0 <= n <= 65535 {
            Some(n)
        } else {
            None
        },
        _ => None,
    }
}

/// The bytes of a value, where it is a byte string of either kind.
pub open spec fn as_byte_string(t: Term) -> Option<Seq<u8>> {
    match t {
        Term::Bytes(b) => Some(b),
        Term::ByteArray(b) => Some(b),
        _ => None,
    }
}

/// The single characters of a text, each a text.
pub open spec fn char_terms(s: Seq<char>) -> Seq<Term> {
    s.map_values(|c: char| Term::Str(seq![c]))
}

/// The bytes of a byte string, each an integer.
pub open spec fn byte_terms(b: Seq<u8>) -> Seq<Term> {
    b.map_values(|x: u8| Term::Int(x as int))
}

/// The elements of a value that is a sequence: lists, tuples, texts and byte
/// strings.
pub open spec fn elements(t: Term) -> Option<Seq<Term>> {
    match t {
        Term::List(v) => Some(v),
        Term::Tuple(v) => Some(v),
        Term::Str(s) => Some(char_terms(s)),
        Term::Bytes(b) => Some(byte_terms(b)),
        Term::ByteArray(b) => Some(byte_terms(b)),
        _ => None,
    }
}

/// The items that iterating over a value yields: a mapping yields its keys.
pub open spec fn items(t: Term) -> Option<Seq<Term>> {
    match t {
        Term::Iter(v) => Some(v),
        Term::Dict(m) => Some(m.map_values(|e: (Seq<char>, Term)| Term::Str(e.0))),
        _ => elements(t),
    }
}

/// What is found under a key is the first entry of that key; nothing is found
/// only where no entry has it.
pub proof fn lookup_comes_first(m: Seq<(Seq<char>, Term)>, key: Seq<char>)
    ensures
        match lookup(m, key) {
            Some(t) => exists|i: int|
                0 <= i < m.len() && (#[trigger] m[i]) == (key, t) && forall|j: int|
                    0 <= j < i ==> (#[trigger] m[j]).0 != key,
            None => forall|i: int| 0 <= i < m.len() ==> (#[trigger] m[i]).0 != key,
        },
    decreases m.len(),
{
    if m.len() > 0 && m[0].0 != key {
        let rest = m.skip(1);
        lookup_comes_first(rest, key);
        match lookup(rest, key) {
            Some(t) => {
                let i = choose|i: int|
                    0 <= i < rest.len() && (#[trigger] rest[i]) == (key, t) && forall|j: int|
                        0 <= j < i ==> (#[trigger] rest[j]).0 != key;
                assert(m[i + 1] == (key, t));
                assert forall|j: int| 0 <= j < i + 1 implies (#[trigger] m[j]).0 != key by {
                    if j > 0 {
                        assert(rest[j - 1] == m[j]);
                    }
                }
            },
            None => {
                assert forall|i: int| 0 <= i < m.len() implies (#[trigger] m[i]).0 != key by {
                    if i > 0 {
                        assert(rest[i - 1] == m[i]);
                    }
                }
            },
        }
    } else if m.len() > 0 {
        assert(m[0] == (key, m[0].1));
    }
}

/// Each kind of value is read as what it is, and as nothing else.
pub proof fn values_are_read_as_they_are(n: int, b: Seq<u8>, s: Seq<char>, f: bool, t: Term)
    ensures
        as_u16(Term::Int(n)) == if 0 <= n <= 65535 {
            Some(n)
        } else {
            None
        },
        as_u16(t) is Some ==> t is Int || t is Bool,
        as_byte_string(Term::Bytes(b)) == Some(b),
        as_byte_string(Term::ByteArray(b)) == Some(b),
        as_byte_string(t) is Some <==> t is Bytes || t is ByteArray,
        as_text(Term::Str(s)) == Some(s),
        as_text(t) is Some <==> t is Str,
        as_bool(Term::Bool(f)) == Some(f),
        as_bool(t) is Some <==> t is Bool,
{
}

/// A list and a tuple hold their items; a text holds its characters, and a byte
/// string its bytes as integers, so neither is a pair of byte strings.
pub proof fn elements_are_the_items(v: Seq<Term>, s: Seq<char>, b: Seq<u8>, t: Term)
    ensures
        elements(Term::List(v)) == Some(v),
        elements(Term::Tuple(v)) == Some(v),
        items(Term::List(v)) == Some(v),
        items(Term::Tuple(v)) == Some(v),
        items(Term::Iter(v)) == Some(v),
        elements(Term::Str(s)) matches Some(cs) && cs.len() == s.len(),
        elements(Term::Bytes(b)) matches Some(ns) && ns.len() == b.len() && forall|i: int|
            0 <= i < b.len() ==> (#[trigger] ns[i]) == Term::Int(b[i] as int),
        t is Null || t is Bool || t is Int || t is Other || t is Raised ==> items(t) is None
            && elements(t) is None,
{
}

/// A list holds the contents of its values in their order, and a mapping those of
/// its entries, each under its key.
pub proof fn contents_keep_their_places(v: Seq<Value>, m: Seq<(String, Value)>, i: int)
    ensures
        terms(v).len() == v.len(),
        0 <= i < v.len() ==> terms(v)[i] == v[i].term(),
        fields(m).len() == m.len(),
        0 <= i < m.len() ==> fields(m)[i] == (m[i].0@, m[i].1.term()),
{
}

impl Value {
    /// The text of this value, where it is one.
    pub fn text(&self) -> (r: Option<String>)
        ensures
            r is Some <==> as_text(self.term()) is Some,
            r matches Some(s) ==> as_text(self.term()) == Some(s@),
    {
        match self {
            Value::Str(s) => Some(s.clone()),
            _ => None,
        }
    }

    /// The truth value of this value, where it is one.
    pub fn boolean(&self) -> (r: Option<bool>)
        ensures
            r == as_bool(self.term()),
    {
        match self {
            Value::Bool(b) => Some(*b),
            _ => None,
        }
    }

    /// The number of this value, where it is an integer from 0 to 65535.
    pub fn small_int(&self) -> (r: Option<u16>)
        ensures
            r is Some <==> as_u16(self.term()) is Some,
            r matches Some(n) ==> as_u16(self.term()) == Some(n as int),
    {
        match self {
            Value::Bool(b) => Some(if *b { 1 } else { 0 }),
            Value::Int(n) => if 0 <= *n && *n <= 65535 {
                Some(*n as u16)
            } else {
                None
            },
            _ => None,
        }
    }

    /// The bytes of this value, where it is a byte string of either kind.
    pub fn byte_string(&self) -> (r: Option<Vec<u8>>)
        ensures
            r is Some <==> as_byte_string(self.term()) is Some,
            r matches Some(b) ==> as_byte_string(self.term()) == Some(b@),
    {
        match self {
            Value::Bytes(b) => Some(copy_bytes(b.as_slice())),
            Value::ByteArray(b) => Some(copy_bytes(b.as_slice())),
            _ => None,
        }
    }
}

/// A copy of a byte string.
pub fn copy_bytes(b: &[u8]) -> (r: Vec<u8>)
    ensures
        r@ == b@,
{
    vstd::slice::slice_to_vec(b)
}

} // verus!
