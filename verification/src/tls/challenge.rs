//! The answers to ACME challenges, by their tokens.

use vstd::prelude::*;
use vstd::hash_map::StringHashMap;
use crate::asgi;
use crate::asgi::quote;
use crate::text::{cat, chars_of};

verus! {

/// Whether a character may stand in a token: those of base 64 for URLs.
pub open spec fn is_token_char(c: char) -> bool {
    ||| 'a' <= c && c <= 'z'
    ||| 'A' <= c && c <= 'Z'
    ||| '0' <= c && c <= '9'
    ||| c == '-'
    ||| c == '_'
}

/// Whether a text is a token: 1 to 128 characters of base 64 for URLs. So a
/// token holds no path.
pub open spec fn token_ok(token: Seq<char>) -> bool {
    &&& 1 <= token.len() <= 128
    &&& forall|i: int| 0 <= i < token.len() ==> is_token_char(#[trigger] token[i])
}

/// Whether a text is a token.
pub fn is_valid_token(token: &str) -> (r: bool)
    ensures
        r == token_ok(token@),
{
    let cs = chars_of(token);
    if cs.len() < 1 || cs.len() > 128 {
        return false;
    }
    let mut i: usize = 0;
    while i < cs.len()
        invariant
            i <= cs@.len(),
            cs@ == token@,
            forall|j: int| 0 <= j < i ==> is_token_char(#[trigger] token@[j]),
        decreases cs@.len() - i,
    {
        let c = cs[i];
        let ok = ('a' <= c && c <= 'z') || ('A' <= c && c <= 'Z') || ('0' <= c && c <= '9') || c
            == '-' || c == '_';
        if !ok {
            assert(!is_token_char(token@[i as int]));
            return false;
        }
        i += 1;
    }
    true
}

/// A token never holds a separator of a path, nor two dots in a row.
pub proof fn token_is_no_path(token: Seq<char>)
    requires
        token_ok(token),
    ensures
        !token.contains('/'),
        !token.contains('\\'),
        !token.contains('.'),
{
    assert forall|c: char| token.contains(c) implies is_token_char(c) by {
        let i = choose|i: int| 0 <= i < token.len() && token[i] == c;
        assert(is_token_char(token[i]));
    }
}

/// Every text of 1 to 128 letters, digits, hyphens and underscores is a token;
/// a text with any other character is none, nor is one that is empty or longer.
pub proof fn tokens_are_base_64(token: Seq<char>, at: int)
    ensures
        1 <= token.len() && token.len() <= 128 && (forall|i: int|
            0 <= i < token.len() ==> (48 <= (#[trigger] token[i]) as int <= 57 || 65
                <= token[i] as int <= 90 || 97 <= token[i] as int <= 122 || token[i] == '-'
                || token[i] == '_')) ==> token_ok(token),
        token.len() == 0 || token.len() > 128 ==> !token_ok(token),
        0 <= at < token.len() && token_ok(token) ==> (48 <= token[at] as int <= 57 || 65
            <= token[at] as int <= 90 || 97 <= token[at] as int <= 122 || token[at] == '-'
            || token[at] == '_'),
{
    if 0 <= at < token.len() && token_ok(token) {
        assert(is_token_char(token[at]));
    }
}

/// The line that announces what became of a new answer.
pub open spec fn insert_line(token: Seq<char>) -> Seq<char> {
    if token_ok(token) {
        "INFO rustwasgi: ACME challenge installed for token"@
    } else {
        "WARN rustwasgi: rejecting invalid challenge token "@ + asgi::quoted(token)
    }
}

/// The line that announces a removal.
pub open spec fn removal_line() -> Seq<char> {
    "INFO rustwasgi: ACME challenge removed"@
}

/// The answers to challenges.
pub struct ChallengeStore {
    inner: StringHashMap<String>,
}

impl View for ChallengeStore {
    type V = Map<Seq<char>, Seq<char>>;

    closed spec fn view(&self) -> Map<Seq<char>, Seq<char>> {
        self.inner@.map_values(|s: String| s@)
    }
}

impl ChallengeStore {
    pub fn new() -> (r: ChallengeStore)
        ensures
            r@ == Map::<Seq<char>, Seq<char>>::empty(),
    {
        let r = ChallengeStore { inner: StringHashMap::new() };
        assert(r@ =~= Map::<Seq<char>, Seq<char>>::empty());
        r
    }

    /// Keeps the answer to a challenge. What is no token is rejected. The
    /// result is the line to print.
    pub fn insert(&mut self, token: String, auth: String) -> (r: String)
        ensures
            final(self)@ == with_answer(old(self)@, token@, auth@),
            r@ == insert_line(token@),
    {
        if !is_valid_token(token.as_str()) {
            let shown = quote(token.as_str());
            return cat("WARN rustwasgi: rejecting invalid challenge token ", shown.as_str());
        }
        let ghost key = token@;
        let ghost value = auth@;
        self.inner.insert(token, auth);
        proof {
            assert(self@ =~= old(self)@.insert(key, value));
        }
        "INFO rustwasgi: ACME challenge installed for token".to_string()
    }

    /// The answer to a challenge.
    pub fn get(&self, token: &str) -> (r: Option<String>)
        ensures
            match r {
                Some(auth) => answer(self@, token@) == Some(auth@),
                None => answer(self@, token@) is None,
            },
    {
        if !is_valid_token(token) {
            return None;
        }
        match self.inner.get(token) {
            Some(auth) => Some(auth.clone()),
            None => None,
        }
    }

    /// Forgets the answer to a challenge, if there is one. The result is the
    /// line to print.
    pub fn remove(&mut self, token: &str) -> (r: &'static str)
        ensures
            final(self)@ == old(self)@.remove(token@),
            r@ == removal_line(),
    {
        self.inner.remove(token);
        proof {
            assert(self@ =~= old(self)@.remove(token@));
        }
        "INFO rustwasgi: ACME challenge removed"
    }

    /// Forgets everything.
    pub fn clear(&mut self)
        ensures
            final(self)@ == Map::<Seq<char>, Seq<char>>::empty(),
    {
        self.inner.clear();
        proof {
            assert(self@ =~= Map::<Seq<char>, Seq<char>>::empty());
        }
    }
}

/// What is read of a token: what was kept under it, if it is a token.
pub open spec fn answer(store: Map<Seq<char>, Seq<char>>, token: Seq<char>) -> Option<Seq<char>> {
    if token_ok(token) && store.contains_key(token) {
        Some(store[token])
    } else {
        None
    }
}

/// What [`ChallengeStore::insert`] makes of a store.
pub open spec fn with_answer(
    store: Map<Seq<char>, Seq<char>>,
    token: Seq<char>,
    auth: Seq<char>,
) -> Map<Seq<char>, Seq<char>> {
    if token_ok(token) {
        store.insert(token, auth)
    } else {
        store
    }
}

/// An answer that was kept under a token is read back under it, until it is
/// removed; other answers stay as they are. What is no token is never
/// answered.
pub proof fn answers_are_kept(
    store: Map<Seq<char>, Seq<char>>,
    token: Seq<char>,
    auth: Seq<char>,
    other: Seq<char>,
)
    ensures
        token_ok(token) ==> answer(with_answer(store, token, auth), token) == Some(auth),
        !token_ok(token) ==> answer(with_answer(store, token, auth), token) is None,
        other != token ==> answer(with_answer(store, token, auth), other) == answer(store, other),
        answer(store.remove(token), token) is None,
        other != token ==> answer(store.remove(token), other) == answer(store, other),
{
}

} // verus!
