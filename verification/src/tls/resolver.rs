//! The choice of a certificate by the name that a client asks for.

use vstd::prelude::*;
use vstd::hash_map::StringHashMap;
use std::sync::Arc;
use rustls::sign::CertifiedKey;
use crate::text;
use crate::text::to_lower;

verus! {

/// Whether a text is a DNS name or an IP address.
pub uninterp spec fn is_server_name(name: Seq<char>) -> bool;

/// `rustls::pki_types::ServerName::try_from`: whether the text is a DNS name or
/// an IP address. It depends on the text alone; the syntax of names is not
/// said here.
#[verifier::external_body]
fn valid_server_name(name: &str) -> (r: bool)
    ensures
        r == is_server_name(name@),
{
    rustls::pki_types::ServerName::try_from(name.to_string()).is_ok()
}

/// Certificates by name, in lower case, and one for all other names.
pub struct SniResolver {
    names: StringHashMap<Arc<CertifiedKey>>,
    default: Option<Arc<CertifiedKey>>,
}

impl SniResolver {
    /// The certificates by name.
    pub closed spec fn by_name(self) -> Map<Seq<char>, CertifiedKey> {
        self.names@.map_values(|ck: Arc<CertifiedKey>| *ck)
    }

    /// The certificate for all other names.
    pub closed spec fn fallback(self) -> Option<CertifiedKey> {
        match self.default {
            Some(ck) => Some(*ck),
            None => None,
        }
    }

    /// The certificate for a name that a client asks for, in any case, or for
    /// no name.
    pub open spec fn chosen(self, name: Option<Seq<char>>) -> Option<CertifiedKey> {
        match name {
            Some(n) => if self.by_name().contains_key(text::lower(n)) {
                Some(self.by_name()[text::lower(n)])
            } else {
                self.fallback()
            },
            None => self.fallback(),
        }
    }

    pub fn new() -> (r: SniResolver)
        ensures
            r.by_name() == Map::<Seq<char>, CertifiedKey>::empty(),
            r.fallback() is None,
    {
        let r = SniResolver { names: StringHashMap::new(), default: None };
        assert(r.by_name() =~= Map::<Seq<char>, CertifiedKey>::empty());
        r
    }

    /// Adds a certificate for a name. The result tells whether the text is a
    /// name; where it is none, nothing is added.
    pub fn add(&mut self, name: &str, ck: CertifiedKey) -> (r: bool)
        ensures
            r == is_server_name(name@),
            final(self).by_name() == if r {
                old(self).by_name().insert(text::lower(name@), ck)
            } else {
                old(self).by_name()
            },
            final(self).fallback() == old(self).fallback(),
    {
        if !valid_server_name(name) {
            return false;
        }
        self.names.insert(to_lower(name), Arc::new(ck));
        proof {
            assert(self.by_name() =~= old(self).by_name().insert(text::lower(name@), ck));
        }
        true
    }

    /// The number of names.
    pub fn count(&self) -> (r: usize)
        ensures
            r == self.by_name().dom().len(),
    {
        assert(self.by_name().dom() =~= self.names@.dom());
        self.names.len()
    }

    /// Sets the certificate for all other names.
    pub fn set_default(&mut self, ck: CertifiedKey)
        ensures
            final(self).by_name() == old(self).by_name(),
            final(self).fallback() == Some(ck),
    {
        self.default = Some(Arc::new(ck));
    }

    /// The certificate for the name that a client asks for, if it asks for
    /// one.
    pub fn resolve(&self, server_name: Option<&str>) -> (r: Option<&Arc<CertifiedKey>>)
        ensures
            match r {
                Some(ck) => self.chosen(
                    match server_name {
                        Some(n) => Some(n@),
                        None => None,
                    },
                ) == Some(**ck),
                None => self.chosen(
                    match server_name {
                        Some(n) => Some(n@),
                        None => None,
                    },
                ) is None,
            },
    {
        if let Some(name) = server_name {
            let key = to_lower(name);
            if let Some(ck) = self.names.get(key.as_str()) {
                return Some(ck);
            }
        }
        match &self.default {
            Some(ck) => Some(ck),
            None => None,
        }
    }
}

/// A name that is known gets its certificate, in whatever case it is asked for;
/// any other name, and no name, gets the one for all others.
pub proof fn known_names_come_first(r: SniResolver, asked: Seq<char>)
    ensures
        r.by_name().contains_key(text::lower(asked)) ==> r.chosen(Some(asked)) == Some(
            r.by_name()[text::lower(asked)],
        ),
        !r.by_name().contains_key(text::lower(asked)) ==> r.chosen(Some(asked)) == r.fallback(),
        r.chosen(None) == r.fallback(),
        r.chosen(Some(text::lower(asked))) == r.chosen(Some(asked)),
{
    text::lower_is_by_letter(asked);
}

/// A certificate that was added for a name is chosen for it, in whatever case
/// it is asked for; the choice for other names stays as it was.
pub proof fn added_name_is_chosen(
    before: SniResolver,
    after: SniResolver,
    name: Seq<char>,
    ck: CertifiedKey,
    asked: Seq<char>,
)
    requires
        after.by_name() == before.by_name().insert(text::lower(name), ck),
        after.fallback() == before.fallback(),
    ensures
        text::lower(asked) == text::lower(name) ==> after.chosen(Some(asked)) == Some(ck),
        text::lower(asked) != text::lower(name) ==> after.chosen(Some(asked)) == before.chosen(
            Some(asked),
        ),
        after.chosen(None) == before.chosen(None),
{
}

} // verus!
