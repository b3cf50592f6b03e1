//! The renewal of certificates: when it is due, and how a new one is got.

use vstd::prelude::*;
use vstd::utf8::*;
use rcgen::{CertificateParams, KeyPair};
use crate::acme::certificate;
use crate::acme::certificate::x509_expiry;
use crate::asgi;
use crate::asgi::quote;
use crate::cli::ServerConfig;
use crate::metrics;
use crate::metrics::Metrics;
use crate::text;
use crate::text::{cat, contains};
use crate::tls::challenge;
use crate::tls::challenge::ChallengeStore;
use crate::tls::config;
use crate::tls::config::read_certs;
use crate::value::copy_bytes;

verus! {

#[verifier::external_type_specification]
#[verifier::external_body]
pub struct ExCertificateParams(rcgen::CertificateParams);

#[verifier::external_type_specification]
#[verifier::external_body]
pub struct ExKeyPair(rcgen::KeyPair);

/// How certificates are renewed.
#[derive(Debug)]
pub struct AcmeConfig {
    pub directory_url: String,
    pub email: String,
    pub domains: Vec<String>,
    pub storage_dir: String,
    /// A certificate is renewed when fewer days than these remain.
    pub renew_threshold_days: u64,
}

fn copy_texts(v: &Vec<String>) -> (r: Vec<String>)
    ensures
        text::texts(r@) == text::texts(v@),
{
    let mut out: Vec<String> = Vec::new();
    let mut i: usize = 0;
    while i < v.len()
        invariant
            i <= v@.len(),
            out@.len() == i,
            forall|j: int| 0 <= j < i ==> (#[trigger] out@[j])@ == v@[j]@,
        decreases v@.len() - i,
    {
        out.push(v[i].clone());
        i += 1;
    }
    assert(text::texts(out@) =~= text::texts(v@));
    out
}

impl AcmeConfig {
    /// How certificates are renewed, by the configuration of the server: not
    /// at all without domains or without an address for the account.
    pub fn from_server_config(cfg: &ServerConfig) -> (r: Option<AcmeConfig>)
        ensures
            r is Some <==> cfg.acme_enabled(),
            r matches Some(c) ==> {
                &&& c.directory_url@ == match cfg.security.acme_directory {
                    Some(d) => d@,
                    None => "https://acme-v02.api.letsencrypt.org/directory"@,
                }
                &&& c.email@ == cfg.security.acme_email->0@
                &&& text::texts(c.domains@) == text::texts(cfg.security.acme_domains@)
                &&& c.storage_dir@ == match cfg.security.acme_dir {
                    Some(d) => d@,
                    None => "./acme"@,
                }
                &&& c.renew_threshold_days == 30
            },
    {
        if cfg.security.acme_domains.len() == 0 {
            return None;
        }
        let email = match &cfg.security.acme_email {
            Some(e) => e.clone(),
            None => {
                return None;
            },
        };
        let directory_url = match &cfg.security.acme_directory {
            Some(d) => d.clone(),
            None => "https://acme-v02.api.letsencrypt.org/directory".to_string(),
        };
        let storage_dir = match &cfg.security.acme_dir {
            Some(d) => d.clone(),
            None => "./acme".to_string(),
        };
        let domains = copy_texts(&cfg.security.acme_domains);
        Some(
            AcmeConfig { directory_url, email, domains, storage_dir, renew_threshold_days: 30 },
        )
    }
}

/// Whether a certificate that ends at a time is due at another: whether less
/// time remains than the days of the threshold. Times are in seconds.
pub open spec fn is_due(expiry: int, now: int, threshold_days: int) -> bool {
    expiry - now < threshold_days * 86400
}

/// Whether a certificate that ends at a time is due. Times are in seconds
/// since 1970.
pub fn due(expiry: i64, now: i64, threshold_days: u64) -> (r: bool)
    ensures
        r == is_due(expiry as int, now as int, threshold_days as int),
{
    let remaining: i128 = expiry as i128 - now as i128;
    remaining < threshold_days as i128 * 86400
}

/// A certificate that is due stays due.
pub proof fn due_stays_due(expiry: int, now: int, later: int, threshold_days: int)
    requires
        is_due(expiry, now, threshold_days),
        now <= later,
    ensures
        is_due(expiry, later, threshold_days),
{
}

/// A certificate that has ended is due, whatever the threshold.
pub proof fn expired_is_due(expiry: int, now: int, threshold_days: int)
    requires
        expiry < now,
        0 <= threshold_days,
    ensures
        is_due(expiry, now, threshold_days),
{
}

/// A certificate is due exactly when less time remains than the threshold: one
/// second less than so many days of 86400 seconds is, as many are not. A
/// threshold that is a day longer makes it due a day earlier.
pub proof fn due_by_the_second(now: int, threshold_days: int, expiry: int)
    ensures
        is_due(now + threshold_days * 86400 - 1, now, threshold_days),
        !is_due(now + threshold_days * 86400, now, threshold_days),
        is_due(expiry, now, threshold_days + 1) == is_due(expiry, now + 86400, threshold_days),
        is_due(expiry, now, 0) <==> expiry < now,
{
}

/// Whether the certificate in a PEM text is due, or why that cannot be told.
pub open spec fn renewal_due(pem: Seq<u8>, now: int, threshold_days: int) -> Result<
    bool,
    Seq<char>,
> {
    match config::pem_certificates(pem) {
        Err(e) => Err("parse cert: "@ + e),
        Ok(chain) => if chain.len() == 0 {
            Err("no cert"@)
        } else {
            match certificate::not_after(chain[0]) {
                Err(e) => Err("x509 parse: "@ + e),
                Ok(expiry) => Ok(is_due(expiry, now, threshold_days)),
            }
        },
    }
}

/// Whether the certificate in a file is due: whether less time than the
/// threshold remains. `file` is what the file holds, or why it cannot be read.
pub fn should_renew(file: Result<Vec<u8>, String>, now: i64, threshold_days: u64) -> (r: Result<
    bool,
    String,
>)
    ensures
        match file {
            Err(e) => r matches Err(text) && text@ == "read cert: "@ + e@,
            Ok(pem) => match r {
                Ok(b) => renewal_due(pem@, now as int, threshold_days as int) == Ok::<
                    _,
                    Seq<char>,
                >(b),
                Err(text) => renewal_due(pem@, now as int, threshold_days as int) == Err::<
                    bool,
                    _,
                >(text@),
            },
        },
{
    let pem = match file {
        Ok(d) => d,
        Err(e) => {
            return Err(cat("read cert: ", e.as_str()));
        },
    };
    let chain = match read_certs(pem.as_slice()) {
        Ok(c) => c,
        Err(e) => {
            return Err(cat("parse cert: ", e.as_str()));
        },
    };
    if chain.len() == 0 {
        return Err("no cert".to_string());
    }
    match x509_expiry(chain[0].as_slice()) {
        Ok(expiry) => Ok(due(expiry, now, threshold_days)),
        Err(e) => Err(cat("x509 parse: ", e.as_str())),
    }
}

/// The parameters of a certificate for some domains, with an empty subject, or
/// why there are none.
pub uninterp spec fn certificate_params(domains: Seq<Seq<char>>) -> Result<
    CertificateParams,
    Seq<char>,
>;

/// `rcgen::CertificateParams::new`, with the subject then set to
/// `rcgen::DistinguishedName::new`: the parameters, or the text of the error
/// where a domain is no name. The result depends on the domains alone; which
/// names there are is not said here.
#[verifier::external_body]
fn new_params(domains: &Vec<String>) -> (r: Result<CertificateParams, String>)
    ensures
        match r {
            Ok(p) => certificate_params(text::texts(domains@)) == Ok::<_, Seq<char>>(p),
            Err(e) => certificate_params(text::texts(domains@)) == Err::<CertificateParams, _>(e@),
        },
{
    let mut params = CertificateParams::new(domains.clone()).map_err(|e| e.to_string())?;
    params.distinguished_name = rcgen::DistinguishedName::new();
    Ok(params)
}

/// Whether the private half of a key pair is held here, not by a remote signer.
pub uninterp spec fn is_local(key: KeyPair) -> bool;

/// `rcgen::KeyPair::generate`: a new key pair whose private half is held here,
/// or the text of the error. The key is random, so no more is said of it.
#[verifier::external_body]
fn generate_key() -> (r: Result<KeyPair, String>)
    ensures
        r matches Ok(key) ==> is_local(key),
{
    KeyPair::generate().map_err(|e| e.to_string())
}

/// Whether a PEM text is one of the certificates that signing for some
/// parameters with a key pair can give.
pub uninterp spec fn can_sign(params: CertificateParams, key: KeyPair, pem: Seq<char>) -> bool;

/// `rcgen::CertificateParams::self_signed` and `rcgen::Certificate::pem`: a
/// certificate for the parameters, signed with the key pair, as a PEM text; or
/// the text of the error. A signature is random, so only this is said: the text
/// is one of those that these parameters and this key pair can give. What is in
/// such a text, and whether signing works, is not said here. The parameters have
/// to be some that were made for domains: with other dates the call may panic.
#[verifier::external_body]
fn self_sign(params: CertificateParams, key: &KeyPair) -> (r: Result<String, String>)
    requires
        exists|d: Seq<Seq<char>>| certificate_params(d) == Ok::<_, Seq<char>>(params),
        is_local(*key),
    ensures
        r matches Ok(pem) ==> can_sign(params, *key, pem@),
{
    match params.self_signed(key) {
        Ok(cert) => Ok(cert.pem()),
        Err(e) => Err(e.to_string()),
    }
}

/// The PEM text of a key pair.
pub uninterp spec fn key_pair_pem(key: KeyPair) -> Seq<char>;

/// `rcgen::KeyPair::serialize_pem`: the key pair as a PEM text. It depends on
/// the key pair alone; the format is not said here. For the pair of a remote
/// signer the call panics.
#[verifier::external_body]
fn key_pem(key: &KeyPair) -> (r: String)
    requires
        is_local(*key),
    ensures
        r@ == key_pair_pem(*key),
{
    key.serialize_pem()
}

/// What a certificate and its key are made of: each part as a PEM text, or the
/// text of the first error.
pub fn assemble(key: Result<String, String>, cert: Result<String, String>) -> (r: Result<
    (Vec<u8>, Vec<u8>),
    String,
>)
    ensures
        match (key, cert) {
            (Err(e), _) => r matches Err(text) && text@ == "key gen: "@ + e@,
            (Ok(_), Err(e)) => r matches Err(text) && text@ == "self signed: "@ + e@,
            (Ok(k), Ok(c)) => r matches Ok(pair) && pair.0@ == encode_utf8(c@) && pair.1@
                == encode_utf8(k@),
        },
{
    match (key, cert) {
        (Err(e), _) => Err(cat("key gen: ", e.as_str())),
        (Ok(_), Err(e)) => Err(cat("self signed: ", e.as_str())),
        (Ok(k), Ok(c)) => Ok((copy_bytes(c.as_str().as_bytes()), copy_bytes(k.as_str().as_bytes()))),
    }
}

/// The text of the error where no key came about.
pub open spec fn key_gen_error(e: Seq<char>) -> Seq<char> {
    "key gen: "@ + e
}

/// The text of the error where no signature came about.
pub open spec fn sign_error(e: Seq<char>) -> Seq<char> {
    "self signed: "@ + e
}

/// Whether bytes are a certificate for some domains as a PEM text that was
/// signed with a key pair, and that key pair as a PEM text.
pub open spec fn is_signed_pair(
    cert: Seq<u8>,
    private: Seq<u8>,
    domains: Seq<Seq<char>>,
    key: KeyPair,
    pem: Seq<char>,
) -> bool {
    &&& certificate_params(domains) matches Ok(params)
    &&& can_sign(params, key, pem)
    &&& cert == encode_utf8(pem)
    &&& private == encode_utf8(key_pair_pem(key))
}

/// A certificate for some domains, signed with a new key, and that key, both as
/// PEM texts. Where the domains are no names that is an error;
/// whether a key and a signature come about is up to chance.
pub fn generate_self_signed(domains: &Vec<String>) -> (r: Result<(Vec<u8>, Vec<u8>), String>)
    ensures
        certificate_params(text::texts(domains@)) matches Err(e) ==> (r matches Err(text) && text@
            == "params: "@ + e),
        r matches Ok(pair) ==> exists|key: KeyPair, pem: Seq<char>| #[trigger]
            is_signed_pair(pair.0@, pair.1@, text::texts(domains@), key, pem),
        r is Err && certificate_params(text::texts(domains@)) is Ok ==> (exists|e: Seq<char>|
            r->Err_0@ == #[trigger] key_gen_error(e)) || (exists|e: Seq<char>|
            r->Err_0@ == #[trigger] sign_error(e)),
{
    let params = match new_params(domains) {
        Ok(p) => p,
        Err(e) => {
            return Err(cat("params: ", e.as_str()));
        },
    };
    let key = match generate_key() {
        Ok(k) => k,
        Err(e) => {
            let ghost why = e@;
            assert(key_gen_error(why) == "key gen: "@ + why);
            return assemble(Err(e), Ok(String::new()));
        },
    };
    let cert = self_sign(params, &key);
    let ghost signed = cert;
    let r = assemble(Ok(key_pem(&key)), cert);
    proof {
        match signed {
            Ok(pem) => {
                assert(is_signed_pair(
                    r->Ok_0.0@,
                    r->Ok_0.1@,
                    text::texts(domains@),
                    key,
                    pem@,
                ));
            },
            Err(e) => {
                assert(r->Err_0@ == sign_error(e@));
            },
        }
    }
    r
}

/// A list of texts as programmers write it.
pub open spec fn listed(v: Seq<Seq<char>>) -> Seq<char>
    decreases v.len(),
{
    if v.len() == 0 {
        Seq::empty()
    } else if v.len() == 1 {
        asgi::quoted(v[0])
    } else {
        listed(v.drop_last()) + ", "@ + asgi::quoted(v.last())
    }
}

/// A list shows each text in quotes, one behind the other with commas between.
pub proof fn lists_stand_in_a_row(v: Seq<Seq<char>>, s: Seq<char>)
    ensures
        listed(Seq::empty()) == Seq::<char>::empty(),
        listed(seq![s]) == asgi::quoted(s),
        v.len() > 0 ==> listed(v.push(s)) == listed(v) + seq![',', ' '] + asgi::quoted(s),
{
    reveal_strlit(", ");
    assert(", "@ =~= seq![',', ' ']);
    assert(v.push(s).drop_last() =~= v);
}

/// The domains as the log shows them.
pub fn show_domains(domains: &Vec<String>) -> (r: String)
    ensures
        r@ == "["@ + listed(text::texts(domains@)) + "]"@,
{
    let ghost all = text::texts(domains@);
    let mut out = String::new();
    let mut i: usize = 0;
    proof {
        assert(out@ =~= listed(all.take(0)));
    }
    while i < domains.len()
        invariant
            i <= domains@.len(),
            all == text::texts(domains@),
            out@ == listed(all.take(i as int)),
        decreases domains@.len() - i,
    {
        let one = quote(domains[i].as_str());
        proof {
            assert(all.take(i + 1).drop_last() =~= all.take(i as int));
            assert(all.take(i + 1).last() == domains@[i as int]@);
            assert(i == 0 ==> all.take(i + 1)[0] == domains@[i as int]@);
        }
        out = if i == 0 {
            one
        } else {
            cat(cat(out.as_str(), ", ").as_str(), one.as_str())
        };
        i += 1;
    }
    assert(all.take(i as int) =~= all);
    cat(cat("[", out.as_str()).as_str(), "]")
}

/// What follows from the outcome of a renewal with a self-signed certificate:
/// it is counted, and the result is the line to print.
pub fn renew_self_signed(
    metrics: &mut Metrics,
    domains: &Vec<String>,
    installed: Result<(), String>,
) -> (r: Result<String, String>)
    requires
        old(metrics)@.sized(),
    ensures
        final(metrics)@.sized(),
        match installed {
            Ok(_) => {
                &&& r matches Ok(line) && line@
                    == "INFO rustwasgi: ACME self-signed renewal completed for "@ + ("["@ + listed(
                    text::texts(domains@),
                ) + "]"@)
                &&& final(metrics)@ == old(metrics)@.counted(metrics::C_ACME_RENEWALS as int)
            },
            Err(e) => {
                &&& r == Err::<String, String>(e)
                &&& final(metrics)@ == old(metrics)@
            },
        },
{
    match installed {
        Ok(()) => {
            metrics::inc(metrics, metrics::C_ACME_RENEWALS);
            let shown = show_domains(domains);
            Ok(
                cat(
                    "INFO rustwasgi: ACME self-signed renewal completed for ",
                    shown.as_str(),
                ),
            )
        },
        Err(e) => Err(e),
    }
}

/// Seconds before the first round of renewals.
pub const FIRST_DELAY: u64 = 5;

/// Seconds before each round.
pub const ROUND_DELAY: u64 = 3600;

/// How a certificate is got.
#[derive(Debug, Clone, Copy, PartialEq, Eq, Structural)]
pub enum Source {
    SelfSigned,
    Acme,
}

/// The renewal of certificates in the background.
#[derive(Debug, Clone, Copy, PartialEq, Eq, Structural)]
pub struct RenewalTask {
    /// How certificates are got.
    pub source: Source,
}

impl RenewalTask {
    /// Certificates come from the ACME directory, unless there is none or it
    /// is a mock.
    pub fn spawn(config: &AcmeConfig) -> (r: RenewalTask)
        ensures
            r.source == if config.directory_url@.len() == 0 || text::occurs(
                config.directory_url@,
                "mock"@,
            ) {
                Source::SelfSigned
            } else {
                Source::Acme
            },
    {
        let source = if config.directory_url.as_str().is_empty() || contains(
            config.directory_url.as_str(),
            "mock",
        ) {
            Source::SelfSigned
        } else {
            Source::Acme
        };
        RenewalTask { source }
    }

    /// Whether a round renews: where there is no certificate, where it is due,
    /// and where that cannot be told. `check` is the word on the certificate,
    /// if there is one. An order is counted.
    pub fn round(&self, metrics: &mut Metrics, check: Option<Result<bool, String>>) -> (r: bool)
        requires
            old(metrics)@.sized(),
        ensures
            final(metrics)@.sized(),
            r == !(check matches Some(Ok(false))),
            final(metrics)@ == if r {
                old(metrics)@.counted(metrics::C_ACME_ORDERS as int)
            } else {
                old(metrics)@
            },
    {
        let needs = match check {
            Some(Ok(b)) => b,
            _ => true,
        };
        if needs {
            metrics::inc(metrics, metrics::C_ACME_ORDERS);
        }
        needs
    }

    /// What follows from a renewal that failed: it is counted, and the results
    /// are the lines to print. A failure of the ACME directory is counted
    /// twice. The certificate in use stays.
    pub fn failed(&self, metrics: &mut Metrics, error: &str) -> (r: Vec<String>)
        requires
            old(metrics)@.sized(),
        ensures
            final(metrics)@.sized(),
            match self.source {
                Source::SelfSigned => {
                    &&& text::texts(r@) == seq!["WARN rustwasgi: renewal failed: "@ + error@]
                    &&& final(metrics)@ == old(metrics)@.counted(
                        metrics::C_ACME_RENEWAL_FAILURES as int,
                    )
                },
                Source::Acme => {
                    &&& text::texts(r@) == seq![
                        "WARN rustwasgi: ACME issuance failed: "@ + error@
                            + ", retaining current cert"@,
                        "WARN rustwasgi: renewal failed: "@ + error@,
                    ]
                    &&& final(metrics)@ == old(metrics)@.counted(
                        metrics::C_ACME_RENEWAL_FAILURES as int,
                    ).counted(metrics::C_ACME_RENEWAL_FAILURES as int)
                },
            },
    {
        let mut lines: Vec<String> = Vec::new();
        if let Source::Acme = self.source {
            let head = cat("WARN rustwasgi: ACME issuance failed: ", error);
            lines.push(cat(head.as_str(), ", retaining current cert"));
            metrics::inc(metrics, metrics::C_ACME_RENEWAL_FAILURES);
        }
        lines.push(cat("WARN rustwasgi: renewal failed: ", error));
        metrics::inc(metrics, metrics::C_ACME_RENEWAL_FAILURES);
        proof {
            if self.source is Acme {
                assert(text::texts(lines@) =~= seq![
                    "WARN rustwasgi: ACME issuance failed: "@ + error@
                        + ", retaining current cert"@,
                    "WARN rustwasgi: renewal failed: "@ + error@,
                ]);
            } else {
                assert(text::texts(lines@) =~= seq!["WARN rustwasgi: renewal failed: "@ + error@]);
            }
        }
        lines
    }
}

/// One challenge of an authorization.
#[derive(Debug)]
pub struct Challenge {
    /// It is answered over HTTP.
    pub http01: bool,
    pub token: String,
    pub url: String,
}

/// The position of the first challenge over HTTP.
pub open spec fn first_http01(challenges: Seq<Challenge>) -> Option<int>
    decreases challenges.len(),
{
    if challenges.len() == 0 {
        None
    } else {
        match first_http01(challenges.drop_last()) {
            Some(i) => Some(i),
            None => if challenges.last().http01 {
                Some(challenges.len() - 1)
            } else {
                None
            },
        }
    }
}

/// The position of the first challenge over HTTP.
pub fn find_http01(challenges: &Vec<Challenge>) -> (r: Option<usize>)
    ensures
        match r {
            Some(i) => i < challenges@.len() && first_http01(challenges@) == Some(i as int),
            None => first_http01(challenges@) is None,
        },
{
    let mut i: usize = 0;
    while i < challenges.len()
        invariant
            i <= challenges@.len(),
            first_http01(challenges@.take(i as int)) is None,
        decreases challenges@.len() - i,
    {
        proof {
            assert(challenges@.take(i + 1).drop_last() =~= challenges@.take(i as int));
            assert(challenges@.take(i + 1).last() == challenges@[i as int]);
        }
        if challenges[i].http01 {
            proof {
                first_http01_prefix(challenges@, i + 1);
            }
            return Some(i);
        }
        i += 1;
    }
    assert(challenges@.take(i as int) =~= challenges@);
    None
}

proof fn first_http01_prefix(challenges: Seq<Challenge>, n: int)
    requires
        0 <= n <= challenges.len(),
        first_http01(challenges.take(n)) is Some,
    ensures
        first_http01(challenges) == first_http01(challenges.take(n)),
    decreases challenges.len() - n,
{
    if n == challenges.len() {
        assert(challenges.take(n) =~= challenges);
    } else {
        assert(challenges.take(n + 1).drop_last() =~= challenges.take(n));
        first_http01_prefix(challenges, n + 1);
    }
}

/// The challenge that is answered is one over HTTP, and none before it is; it
/// is missing only where no challenge is over HTTP.
pub proof fn first_over_http(challenges: Seq<Challenge>)
    ensures
        match first_http01(challenges) {
            Some(i) => {
                &&& 0 <= i < challenges.len()
                &&& challenges[i].http01
                &&& forall|j: int| 0 <= j < i ==> !(#[trigger] challenges[j]).http01
            },
            None => forall|j: int| 0 <= j < challenges.len() ==> !(#[trigger] challenges[j]).http01,
        },
    decreases challenges.len(),
{
    if challenges.len() > 0 {
        let before = challenges.drop_last();
        first_over_http(before);
        if first_http01(before) is None {
            assert forall|j: int| 0 <= j < challenges.len() - 1 implies !(
            #[trigger] challenges[j]).http01 by {
                assert(before[j] == challenges[j]);
            }
        } else {
            let i = first_http01(before)->0;
            assert(before[i] == challenges[i]);
            assert forall|j: int| 0 <= j < i implies !(#[trigger] challenges[j]).http01 by {
                assert(before[j] == challenges[j]);
            }
        }
    }
}

/// The status of an order.
#[derive(Debug, Clone, Copy, PartialEq, Eq, Structural)]
pub enum OrderStatus {
    Pending,
    Ready,
    Processing,
    Valid,
    Invalid,
}

/// Where the issuance of a certificate stands.
#[derive(Debug, Clone, Copy, PartialEq, Eq, Structural)]
pub enum IssueStage {
    /// The account is got.
    Account,
    /// An order is made.
    Order,
    /// The authorizations are asked for.
    Authorizations,
    /// The answer to a challenge is put in place.
    Place,
    /// The challenge is declared ready.
    Ready,
    /// The order is looked at.
    Refresh,
    /// A certificate is made and installed.
    Install,
    Issued,
}

/// The issuance of a certificate.
pub struct Issuance {
    authorizations: Vec<Vec<Challenge>>,
    stage: IssueStage,
    at: usize,
    tries: usize,
}

/// Looks at an order that is neither ready nor invalid, after which it is
/// given up.
pub const MAX_TRIES: usize = 10;

/// Seconds between two looks at an order.
pub const POLL_DELAY: u64 = 2;

/// The tokens of the challenges over HTTP, one for each authorization that has
/// one.
pub open spec fn tokens(authorizations: Seq<Vec<Challenge>>) -> Set<Seq<char>>
    decreases authorizations.len(),
{
    if authorizations.len() == 0 {
        Set::empty()
    } else {
        let rest = tokens(authorizations.drop_last());
        let last = authorizations.last()@;
        match first_http01(last) {
            Some(i) => rest.insert(last[i].token@),
            None => rest,
        }
    }
}

/// The number of authorizations with a challenge over HTTP.
pub open spec fn answered(authorizations: Seq<Vec<Challenge>>) -> nat
    decreases authorizations.len(),
{
    if authorizations.len() == 0 {
        0
    } else {
        answered(authorizations.drop_last()) + if first_http01(authorizations.last()@) is Some {
            1nat
        } else {
            0nat
        }
    }
}

impl Issuance {
    pub closed spec fn stage(self) -> IssueStage {
        self.stage
    }

    pub closed spec fn authorizations(self) -> Seq<Vec<Challenge>> {
        self.authorizations@
    }

    /// The authorization whose turn it is.
    pub closed spec fn at(self) -> nat {
        self.at as nat
    }

    /// Looks at the order so far that found it neither ready nor invalid.
    pub closed spec fn tries(self) -> nat {
        self.tries as nat
    }

    /// Within the bounds of the authorizations and of the looks.
    pub open spec fn ok(self) -> bool {
        &&& self.at() <= self.authorizations().len()
        &&& self.stage() is Place || self.stage() is Ready ==> self.at()
            < self.authorizations().len()
        &&& self.tries() <= MAX_TRIES
    }

    /// An issuance at its beginning.
    pub fn try_acme_issuance() -> (r: Issuance)
        ensures
            r.ok(),
            r.stage() is Account,
            r.authorizations().len() == 0,
            r.at() == 0,
            r.tries() == 0,
    {
        Issuance { authorizations: Vec::new(), stage: IssueStage::Account, at: 0, tries: 0 }
    }

    /// What is to be done.
    pub fn current(&self) -> (r: IssueStage)
        ensures
            r == self.stage(),
    {
        self.stage
    }

    /// Takes the account, or why there is none.
    pub fn account(&mut self, outcome: Result<(), String>) -> (r: Result<(), String>)
        requires
            old(self).ok(),
            old(self).stage() is Account,
        ensures
            final(self).ok(),
            r == outcome,
            final(self).stage() == if r is Ok {
                IssueStage::Order
            } else {
                IssueStage::Account
            },
            final(self).authorizations() == old(self).authorizations(),
            final(self).at() == old(self).at(),
            final(self).tries() == old(self).tries(),
    {
        if outcome.is_ok() {
            self.stage = IssueStage::Order;
        }
        outcome
    }

    /// Takes the order, or why there is none.
    pub fn ordered(&mut self, outcome: Result<(), String>) -> (r: Result<(), String>)
        requires
            old(self).ok(),
            old(self).stage() is Order,
        ensures
            final(self).ok(),
            match outcome {
                Ok(_) => r is Ok && final(self).stage() is Authorizations,
                Err(e) => r matches Err(text) && text@ == "new order: "@ + e@ && *final(self)
                    == *old(self),
            },
            final(self).authorizations() == old(self).authorizations(),
            final(self).at() == old(self).at(),
            final(self).tries() == old(self).tries(),
    {
        match outcome {
            Ok(()) => {
                self.stage = IssueStage::Authorizations;
                Ok(())
            },
            Err(e) => Err(cat("new order: ", e.as_str())),
        }
    }

    /// Takes the authorizations, or why there are none.
    pub fn authorized(&mut self, outcome: Result<Vec<Vec<Challenge>>, String>) -> (r: Result<
        (),
        String,
    >)
        requires
            old(self).ok(),
            old(self).stage() is Authorizations,
        ensures
            match outcome {
                Ok(list) => {
                    &&& r is Ok
                    &&& final(self).ok()
                    &&& final(self).authorizations() == list@
                    &&& final(self).at() == 0
                    &&& final(self).stage() == if list@.len() == 0 {
                        IssueStage::Refresh
                    } else {
                        IssueStage::Place
                    }
                    &&& final(self).tries() == old(self).tries()
                },
                Err(e) => r matches Err(text) && text@ == "authz: "@ + e@ && *final(self) == *old(
                    self,
                ),
            },
    {
        match outcome {
            Ok(list) => {
                self.stage = if list.len() == 0 {
                    IssueStage::Refresh
                } else {
                    IssueStage::Place
                };
                self.authorizations = list;
                self.at = 0;
                Ok(())
            },
            Err(e) => Err(cat("authz: ", e.as_str())),
        }
    }

    /// The position of the challenge whose turn it is: of its authorization,
    /// and of the challenge in that.
    pub fn position(&self) -> (r: Result<(usize, usize), &'static str>)
        requires
            self.ok(),
            self.stage() is Place || self.stage() is Ready,
        ensures
            match first_http01(self.authorizations()[self.at() as int]@) {
                Some(i) => {
                    &&& r matches Ok(p)
                    &&& p.0 == self.at() && p.1 == i
                    &&& p.0 < self.authorizations().len()
                    &&& p.1 < self.authorizations()[p.0 as int]@.len()
                },
                None => r matches Err(s) && s@ == "no http01 challenge"@,
            },
    {
        match find_http01(&self.authorizations[self.at]) {
            Some(i) => Ok((self.at, i)),
            None => Err("no http01 challenge"),
        }
    }

    /// The challenge whose turn it is: the first one over HTTP of its
    /// authorization. One without is an error.
    pub fn challenge(&self) -> (r: Result<&Challenge, &'static str>)
        requires
            self.ok(),
            self.stage() is Place || self.stage() is Ready,
        ensures
            ({
                let list = self.authorizations()[self.at() as int]@;
                match first_http01(list) {
                    Some(i) => r matches Ok(c) && *c == list[i],
                    None => r matches Err(s) && s@ == "no http01 challenge"@,
                }
            }),
    {
        match self.position() {
            Ok((a, i)) => Ok(&self.authorizations[a][i]),
            Err(e) => Err(e),
        }
    }

    /// Puts the answer to the challenge whose turn it is in place. The result
    /// holds the lines to print.
    pub fn place(&mut self, store: &mut ChallengeStore, answer: String) -> (r: Result<
        (String, String),
        &'static str,
    >)
        requires
            old(self).ok(),
            old(self).stage() is Place,
        ensures
            final(self).ok(),
            final(self).authorizations() == old(self).authorizations(),
            final(self).at() == old(self).at(),
            final(self).tries() == old(self).tries(),
            ({
                let list = old(self).authorizations()[old(self).at() as int]@;
                match first_http01(list) {
                    Some(i) => {
                        &&& r matches Ok(lines) && lines.0@ == challenge::insert_line(
                            list[i].token@,
                        ) && lines.1@ == "INFO rustwasgi: ACME challenge installed for "@
                            + list[i].token@
                        &&& final(store)@ == challenge::with_answer(
                            old(store)@,
                            list[i].token@,
                            answer@,
                        )
                        &&& final(self).stage() is Ready
                    },
                    None => {
                        &&& r matches Err(s) && s@ == "no http01 challenge"@
                        &&& final(store)@ == old(store)@
                        &&& final(self).stage() is Place
                    },
                }
            }),
    {
        let token = match self.challenge() {
            Ok(c) => c.token.clone(),
            Err(e) => {
                return Err(e);
            },
        };
        let line = cat("INFO rustwasgi: ACME challenge installed for ", token.as_str());
        let first = store.insert(token, answer);
        self.stage = IssueStage::Ready;
        Ok((first, line))
    }

    /// Takes the word on the challenge that was declared ready.
    pub fn declared(&mut self, outcome: Result<(), String>) -> (r: Result<(), String>)
        requires
            old(self).ok(),
            old(self).stage() is Ready,
        ensures
            final(self).ok(),
            final(self).authorizations() == old(self).authorizations(),
            final(self).tries() == old(self).tries(),
            match outcome {
                Ok(_) => {
                    &&& r is Ok
                    &&& final(self).at() == old(self).at() + 1
                    &&& final(self).stage() == if final(self).at() == old(
                        self,
                    ).authorizations().len() {
                        IssueStage::Refresh
                    } else {
                        IssueStage::Place
                    }
                },
                Err(e) => r matches Err(text) && text@ == "set challenge ready: "@ + e@
                    && *final(self) == *old(self),
            },
    {
        match outcome {
            Ok(()) => {
                let total: usize = self.authorizations.len();
                self.at = self.at + 1;
                self.stage = if self.at == total {
                    IssueStage::Refresh
                } else {
                    IssueStage::Place
                };
                Ok(())
            },
            Err(e) => Err(cat("set challenge ready: ", e.as_str())),
        }
    }

    /// Takes a look at the order. One that is ready is gone on with, one that
    /// is invalid is an error; any other is looked at again, unless that was
    /// done too often.
    pub fn refreshed(&mut self, outcome: Result<OrderStatus, String>) -> (r: Result<(), String>)
        requires
            old(self).ok(),
            old(self).stage() is Refresh,
        ensures
            final(self).ok(),
            final(self).authorizations() == old(self).authorizations(),
            final(self).at() == old(self).at(),
            r is Err ==> *final(self) == *old(self),
            match outcome {
                Err(e) => r matches Err(text) && text@ == "refresh: "@ + e@,
                Ok(status) => match status {
                    OrderStatus::Ready => r is Ok && final(self).stage() is Install
                        && final(self).tries() == old(self).tries(),
                    OrderStatus::Invalid => r matches Err(text) && text@ == "order invalid"@,
                    _ => if old(self).tries() < MAX_TRIES {
                        &&& r is Ok
                        &&& final(self).stage() is Refresh
                        &&& final(self).tries() == old(self).tries() + 1
                    } else {
                        r matches Err(text) && text@ == "order not ready"@
                    },
                },
            },
    {
        match outcome {
            Err(e) => Err(cat("refresh: ", e.as_str())),
            Ok(status) => match status {
                OrderStatus::Ready => {
                    self.stage = IssueStage::Install;
                    Ok(())
                },
                OrderStatus::Invalid => Err("order invalid".to_string()),
                _ => {
                    if self.tries < MAX_TRIES {
                        self.tries = self.tries + 1;
                        Ok(())
                    } else {
                        Err("order not ready".to_string())
                    }
                },
            },
        }
    }

    /// Takes the word on the installation. Once that went well, the answers to
    /// the challenges are removed; the result holds the lines to print.
    pub fn installed(&mut self, store: &mut ChallengeStore, outcome: Result<(), String>) -> (r: Result<
        Vec<&'static str>,
        String,
    >)
        requires
            old(self).ok(),
            old(self).stage() is Install,
        ensures
            final(self).ok(),
            final(self).authorizations() == old(self).authorizations(),
            final(self).at() == old(self).at(),
            final(self).tries() == old(self).tries(),
            match outcome {
                Ok(_) => {
                    &&& r matches Ok(lines) && lines@.len() == answered(
                        old(self).authorizations(),
                    ) && forall|i: int|
                        0 <= i < lines@.len() ==> (#[trigger] lines@[i])@
                            == challenge::removal_line()
                    &&& final(self).stage() is Issued
                    &&& final(store)@ == old(store)@.remove_keys(
                        tokens(old(self).authorizations()),
                    )
                },
                Err(e) => {
                    &&& r == Err::<Vec<&'static str>, String>(e)
                    &&& *final(self) == *old(self)
                    &&& final(store)@ == old(store)@
                },
            },
    {
        if let Err(e) = outcome {
            return Err(e);
        }
        self.stage = IssueStage::Issued;
        let ghost all = self.authorizations@;
        let ghost before = store@;
        let mut lines: Vec<&'static str> = Vec::new();
        let mut i: usize = 0;
        proof {
            assert(store@ =~= before.remove_keys(tokens(all.take(0))));
        }
        while i < self.authorizations.len()
            invariant
                i <= self.authorizations@.len(),
                all == self.authorizations@,
                all == old(self).authorizations(),
                self.stage is Issued,
                self.at == old(self).at(),
                self.tries == old(self).tries(),
                lines@.len() == answered(all.take(i as int)),
                forall|j: int|
                    0 <= j < lines@.len() ==> (#[trigger] lines@[j])@ == challenge::removal_line(),
                store@ == before.remove_keys(tokens(all.take(i as int))),
            decreases self.authorizations@.len() - i,
        {
            proof {
                assert(all.take(i + 1).drop_last() =~= all.take(i as int));
                assert(all.take(i + 1).last() == all[i as int]);
            }
            if let Some(k) = find_http01(&self.authorizations[i]) {
                lines.push(store.remove(self.authorizations[i][k].token.as_str()));
            }
            proof {
                assert(store@ =~= before.remove_keys(tokens(all.take(i + 1))));
            }
            i += 1;
        }
        assert(all.take(i as int) =~= all);
        Ok(lines)
    }
}

/// Once a certificate was issued, no challenge of its order is answered any
/// more; answers to other challenges stay.
pub proof fn issued_answers_are_gone(
    authorizations: Seq<Vec<Challenge>>,
    store: Map<Seq<char>, Seq<char>>,
    token: Seq<char>,
)
    ensures
        ({
            let after = store.remove_keys(tokens(authorizations));
            &&& tokens(authorizations).contains(token) ==> challenge::answer(after, token) is None
            &&& !tokens(authorizations).contains(token) ==> challenge::answer(after, token)
                == challenge::answer(store, token)
        }),
{
}

/// The token of the first challenge over HTTP of every authorization is among
/// those that are removed.
pub proof fn placed_tokens_are_removed(authorizations: Seq<Vec<Challenge>>, at: int)
    requires
        0 <= at < authorizations.len(),
        first_http01(authorizations[at]@) is Some,
    ensures
        tokens(authorizations).contains(
            authorizations[at]@[first_http01(authorizations[at]@)->0].token@,
        ),
    decreases authorizations.len(),
{
    if at < authorizations.len() - 1 {
        placed_tokens_are_removed(authorizations.drop_last(), at);
    }
}

/// Only tokens of this order are removed.
pub proof fn removed_tokens_were_placed(authorizations: Seq<Vec<Challenge>>, token: Seq<char>)
    requires
        tokens(authorizations).contains(token),
    ensures
        exists|at: int|
            0 <= at < authorizations.len() && {
                let list = (#[trigger] authorizations[at])@;
                first_http01(list) is Some && list[first_http01(list)->0].token@ == token
            },
    decreases authorizations.len(),
{
    if authorizations.len() > 0 {
        let before = authorizations.drop_last();
        if tokens(before).contains(token) {
            removed_tokens_were_placed(before, token);
            let at = choose|at: int|
                0 <= at < before.len() && {
                    let list = (#[trigger] before[at])@;
                    first_http01(list) is Some && list[first_http01(list)->0].token@ == token
                };
            assert(authorizations[at] == before[at]);
        } else {
            assert(authorizations[authorizations.len() - 1] == authorizations.last());
        }
    }
}

/// Whether the certificate in a file is due is decided by the end of its first
/// certificate.
pub proof fn first_certificate_decides(
    pem: Seq<u8>,
    chain: Seq<Seq<u8>>,
    expiry: int,
    now: int,
    threshold_days: int,
)
    requires
        config::pem_certificates(pem) == Ok::<_, Seq<char>>(chain),
    ensures
        chain.len() > 0 && certificate::not_after(chain[0]) == Ok::<_, Seq<char>>(expiry)
            ==> renewal_due(pem, now, threshold_days) == Ok::<_, Seq<char>>(
            expiry - now < threshold_days * 86400,
        ),
        chain.len() == 0 ==> renewal_due(pem, now, threshold_days) is Err,
        chain.len() > 0 && certificate::not_after(chain[0]) is Err ==> renewal_due(
            pem,
            now,
            threshold_days,
        ) is Err,
{
}

/// An authorization counts as answered if and only if it has a challenge over
/// HTTP, each once.
pub proof fn answers_are_counted(authorizations: Seq<Vec<Challenge>>, one: Vec<Challenge>)
    ensures
        answered(Seq::empty()) == 0,
        first_http01(one@) is Some ==> answered(authorizations.push(one)) == answered(
            authorizations,
        ) + 1,
        first_http01(one@) is None ==> answered(authorizations.push(one)) == answered(
            authorizations,
        ),
{
    assert(authorizations.push(one).drop_last() =~= authorizations);
}

/// Why it cannot be told whether a certificate is due is told with its reason.
pub proof fn undecided_renewals_are_told(
    pem: Seq<u8>,
    chain: Seq<Seq<u8>>,
    e: Seq<char>,
    now: int,
    threshold_days: int,
)
    ensures
        config::pem_certificates(pem) == Err::<Seq<Seq<u8>>, _>(e) ==> renewal_due(
            pem,
            now,
            threshold_days,
        ) == Err::<bool, _>("parse cert: "@ + e),
        config::pem_certificates(pem) == Ok::<_, Seq<char>>(chain) && chain.len() == 0
            ==> renewal_due(pem, now, threshold_days) == Err::<bool, _>("no cert"@),
        config::pem_certificates(pem) == Ok::<_, Seq<char>>(chain) && chain.len() > 0
            && certificate::not_after(chain[0]) == Err::<int, _>(e) ==> renewal_due(
            pem,
            now,
            threshold_days,
        ) == Err::<bool, _>("x509 parse: "@ + e),
{
}

} // verus!
