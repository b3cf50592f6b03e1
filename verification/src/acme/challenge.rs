//! A plain store of answers to challenges, and a wider notion of a token.
//!
//! The store keeps whatever it is given; whoever serves answers tests the
//! token first.

use vstd::prelude::*;
use vstd::hash_map::StringHashMap;
use crate::text;
use crate::text::{chars_of, contains};

verus! {

/// Whether a character may stand in a token: those of base 64 for URLs, and
/// the dot.
pub open spec fn is_token_char(c: char) -> bool {
    ||| 'a' <= c && c <= 'z'
    ||| 'A' <= c && c <= 'Z'
    ||| '0' <= c && c <= '9'
    ||| c == '-'
    ||| c == '_'
    ||| c == '.'
}

/// Whether a text is a token: 1 to 128 characters of base 64 for URLs, with
/// single dots among them.
pub open spec fn token_ok(token: Seq<char>) -> bool {
    &&& 1 <= token.len() <= 128
    &&& !text::occurs(token, ".."@)
    &&& forall|i: int| 0 <= i < token.len() ==> is_token_char(#[trigger] token[i])
}

/// Whether a text is a token.
pub fn is_valid_token(token: &str) -> (r: bool)
    ensures
        r == token_ok(token@),
{
    let cs = chars_of(token);
    if cs.len() < 1 || cs.len() > 128 || contains(token, "..") {
        return false;
    }
    let mut i: usize = 0;
    while i < cs.len()
        invariant
            i <= cs@.len(),
            cs@ == token@,
            forall|j: int| 0 <= j < i ==> is_token_char(#[trigger] token@[j]),
        decreases cs@.len() - i,
    {
        let c = cs[i];
        let ok = ('a' <= c && c <= 'z') || ('A' <= c && c <= 'Z') || ('0' <= c && c <= '9') || c
            == '-' || c == '_' || c == '.';
        if !ok {
            assert(!is_token_char(token@[i as int]));
            return false;
        }
        i += 1;
    }
    true
}

/// Every token of the stricter notion is one of this, too.
pub proof fn stricter_tokens(token: Seq<char>)
    requires
        crate::tls::challenge::token_ok(token),
    ensures
        token_ok(token),
{
    assert forall|i: int| 0 <= i < token.len() implies is_token_char(#[trigger] token[i])
        && token[i] != '.' by {
        assert(crate::tls::challenge::is_token_char(token[i]));
    }
    if text::occurs(token, ".."@) {
        let k = choose|k: int| #[trigger] text::occurs_at(token, ".."@, k);
        reveal_strlit("..");
        assert(token.subrange(k, k + 2)[0] == '.');
        assert(token[k] == '.');
    }
}

/// A token of this notion holds letters, digits, hyphens, underscores and dots
/// only, and never two dots in a row: it names no other directory.
pub proof fn tokens_stay_in_place(token: Seq<char>, i: int)
    requires
        token_ok(token),
        0 <= i < token.len(),
    ensures
        token.len() <= 128,
        token[i] != '/' && token[i] != '\\' && token[i] != ' ' && token[i] as u32 <= 122,
        token[i] == '.' && i + 1 < token.len() ==> token[i + 1] != '.',
{
    assert(is_token_char(token[i]));
    if token[i] == '.' && i + 1 < token.len() && token[i + 1] == '.' {
        reveal_strlit("..");
        assert(token.subrange(i, i + 2) =~= ".."@);
        assert(text::occurs_at(token, ".."@, i));
    }
}

/// Every text of 1 to 128 letters, digits, hyphens, underscores and dots, no two
/// dots in a row, is a token of this notion.
pub proof fn tokens_are_accepted(token: Seq<char>)
    requires
        1 <= token.len(),
        token.len() <= 128,
        forall|i: int|
            0 <= i < token.len() ==> (48 <= (#[trigger] token[i]) as int <= 57 || 65
                <= token[i] as int <= 90 || 97 <= token[i] as int <= 122 || token[i] == '-'
                || token[i] == '_' || token[i] == '.'),
        forall|i: int|
            0 <= i < token.len() - 1 && #[trigger] token[i] == '.' ==> token[i + 1] != '.',
    ensures
        token_ok(token),
{
    if text::occurs(token, ".."@) {
        let i = choose|i: int| text::occurs_at(token, ".."@, i);
        reveal_strlit("..");
        assert(token.subrange(i, i + 2)[0] == token[i]);
        assert(token.subrange(i, i + 2)[1] == token[i + 1]);
    }
}

/// The answers to challenges.
pub struct ChallengeStore {
    inner: StringHashMap<String>,
}

impl View for ChallengeStore {
    type V = Map<Seq<char>, Seq<char>>;

    closed spec fn view(&self) -> Map<Seq<char>, Seq<char>> {
        self.inner@.map_values(|s: String| s@)
    }
}

impl ChallengeStore {
    pub fn new() -> (r: ChallengeStore)
        ensures
            r@ == Map::<Seq<char>, Seq<char>>::empty(),
    {
        let r = ChallengeStore { inner: StringHashMap::new() };
        assert(r@ =~= Map::<Seq<char>, Seq<char>>::empty());
        r
    }

    /// Keeps the answer to a challenge.
    pub fn insert(&mut self, token: String, auth: String)
        ensures
            final(self)@ == old(self)@.insert(token@, auth@),
    {
        let ghost key = token@;
        let ghost value = auth@;
        self.inner.insert(token, auth);
        proof {
            assert(self@ =~= old(self)@.insert(key, value));
        }
    }

    /// The answer to a challenge.
    pub fn get(&self, token: &str) -> (r: Option<String>)
        ensures
            r is Some <==> self@.contains_key(token@),
            r matches Some(auth) ==> auth@ == self@[token@],
    {
        match self.inner.get(token) {
            Some(auth) => Some(auth.clone()),
            None => None,
        }
    }

    /// Forgets the answer to a challenge.
    pub fn remove(&mut self, token: &str)
        ensures
            final(self)@ == old(self)@.remove(token@),
    {
        self.inner.remove(token);
        proof {
            assert(self@ =~= old(self)@.remove(token@));
        }
    }
}

} // verus!
