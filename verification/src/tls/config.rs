//! Certificates and keys from PEM files, and the configuration made of them.

use vstd::prelude::*;
use std::sync::Arc;
use rustls::crypto::CryptoProvider;
use rustls::pki_types::{CertificateDer, PrivateKeyDer};
use rustls::sign::CertifiedKey;
use rustls::ServerConfig as RustlsConfig;
use crate::text::cat;
use crate::tls::resolver::SniResolver;

verus! {

#[verifier::external_type_specification]
#[verifier::external_body]
pub struct ExCryptoProvider(rustls::crypto::CryptoProvider);

#[verifier::external_type_specification]
#[verifier::external_body]
pub struct ExCertifiedKey(rustls::sign::CertifiedKey);

#[verifier::external_type_specification]
#[verifier::external_body]
pub struct ExRustlsConfig(RustlsConfig);

/// What can go wrong with certificates and keys.
#[derive(Debug)]
pub enum TlsError {
    CertNotFound(String),
    KeyNotFound(String),
    Io { path: String, source: String },
    CertParse { path: String, reason: String },
    KeyParse { path: String, reason: String },
    NoCerts(String),
    NoKey(String),
    KeyMismatch(String),
    InvalidChain(String),
    Rustls(String),
}

/// The content of a [`TlsError`].
pub enum TlsErrorView {
    CertNotFound(Seq<char>),
    KeyNotFound(Seq<char>),
    Io { path: Seq<char>, source: Seq<char> },
    CertParse { path: Seq<char>, reason: Seq<char> },
    KeyParse { path: Seq<char>, reason: Seq<char> },
    NoCerts(Seq<char>),
    NoKey(Seq<char>),
    KeyMismatch(Seq<char>),
    InvalidChain(Seq<char>),
    Rustls(Seq<char>),
}

impl View for TlsError {
    type V = TlsErrorView;

    open spec fn view(&self) -> TlsErrorView {
        match self {
            TlsError::CertNotFound(p) => TlsErrorView::CertNotFound(p@),
            TlsError::KeyNotFound(p) => TlsErrorView::KeyNotFound(p@),
            TlsError::Io { path, source } => TlsErrorView::Io { path: path@, source: source@ },
            TlsError::CertParse { path, reason } => TlsErrorView::CertParse {
                path: path@,
                reason: reason@,
            },
            TlsError::KeyParse { path, reason } => TlsErrorView::KeyParse {
                path: path@,
                reason: reason@,
            },
            TlsError::NoCerts(p) => TlsErrorView::NoCerts(p@),
            TlsError::NoKey(p) => TlsErrorView::NoKey(p@),
            TlsError::KeyMismatch(s) => TlsErrorView::KeyMismatch(s@),
            TlsError::InvalidChain(s) => TlsErrorView::InvalidChain(s@),
            TlsError::Rustls(s) => TlsErrorView::Rustls(s@),
        }
    }
}

impl TlsErrorView {
    /// The text of this error.
    pub open spec fn text(self) -> Seq<char> {
        match self {
            TlsErrorView::CertNotFound(p) => "certificate file not found: "@ + p,
            TlsErrorView::KeyNotFound(p) => "private key file not found: "@ + p,
            TlsErrorView::Io { path, source } => "failed to read "@ + path + ": "@ + source,
            TlsErrorView::CertParse { path, reason } => "failed to parse certificate "@ + path
                + ": "@ + reason,
            TlsErrorView::KeyParse { path, reason } => "failed to parse private key "@ + path
                + ": "@ + reason,
            TlsErrorView::NoCerts(p) => "no certificates found in "@ + p,
            TlsErrorView::NoKey(p) => "no private key found in "@ + p,
            TlsErrorView::KeyMismatch(s) => "private key does not match certificate: "@ + s,
            TlsErrorView::InvalidChain(s) => "invalid certificate chain: "@ + s,
            TlsErrorView::Rustls(s) => "rustls error: "@ + s,
        }
    }
}

/// Two texts with a third between them.
fn around(head: &str, a: &str, between: &str, b: &str) -> (r: String)
    ensures
        r@ == head@ + a@ + between@ + b@,
{
    let one = cat(head, a);
    let two = cat(one.as_str(), between);
    cat(two.as_str(), b)
}

impl TlsError {
    /// The text of this error.
    pub fn message(&self) -> (r: String)
        ensures
            r@ == self@.text(),
    {
        match self {
            TlsError::CertNotFound(p) => cat("certificate file not found: ", p.as_str()),
            TlsError::KeyNotFound(p) => cat("private key file not found: ", p.as_str()),
            TlsError::Io { path, source } => around(
                "failed to read ",
                path.as_str(),
                ": ",
                source.as_str(),
            ),
            TlsError::CertParse { path, reason } => around(
                "failed to parse certificate ",
                path.as_str(),
                ": ",
                reason.as_str(),
            ),
            TlsError::KeyParse { path, reason } => around(
                "failed to parse private key ",
                path.as_str(),
                ": ",
                reason.as_str(),
            ),
            TlsError::NoCerts(p) => cat("no certificates found in ", p.as_str()),
            TlsError::NoKey(p) => cat("no private key found in ", p.as_str()),
            TlsError::KeyMismatch(s) => cat("private key does not match certificate: ", s.as_str()),
            TlsError::InvalidChain(s) => cat("invalid certificate chain: ", s.as_str()),
            TlsError::Rustls(s) => cat("rustls error: ", s.as_str()),
        }
    }
}

/// How a private key is encoded.
#[derive(Debug, Clone, Copy, PartialEq, Eq, Structural)]
pub enum KeyKind {
    Pkcs1,
    Sec1,
    Pkcs8,
}

/// A private key.
pub struct PrivateKey {
    pub kind: KeyKind,
    pub der: Vec<u8>,
}

/// The content of a chain of certificates.
pub open spec fn chain_view(chain: Seq<Vec<u8>>) -> Seq<Seq<u8>> {
    chain.map_values(|c: Vec<u8>| c@)
}

/// The certificates in a PEM text, or why it cannot be read.
pub uninterp spec fn pem_certificates(pem: Seq<u8>) -> Result<Seq<Seq<u8>>, Seq<char>>;

/// `rustls_pemfile::certs`, collected: the certificates of a PEM text in
/// order, sections of other kinds passed over, or the text of the first error.
/// The result depends on the text alone; the format is not said here.
#[verifier::external_body]
pub(crate) fn read_certs(pem: &[u8]) -> (r: Result<Vec<Vec<u8>>, String>)
    ensures
        match r {
            Ok(chain) => pem_certificates(pem@) == Ok::<_, Seq<char>>(chain_view(chain@)),
            Err(e) => pem_certificates(pem@) == Err::<Seq<Seq<u8>>, _>(e@),
        },
{
    let mut reader: &[u8] = pem;
    let found: Result<Vec<CertificateDer<'static>>, std::io::Error> =
        rustls_pemfile::certs(&mut reader).collect();
    match found {
        Ok(list) => Ok(list.into_iter().map(|c| c.to_vec()).collect()),
        Err(e) => Err(e.to_string()),
    }
}

/// The first private key in a PEM text, if it has one, or why it cannot be
/// read.
pub uninterp spec fn pem_private_key(pem: Seq<u8>) -> Result<
    Option<(KeyKind, Seq<u8>)>,
    Seq<char>,
>;

/// `rustls_pemfile::private_key`: the first private key of a PEM text, of
/// whatever encoding, or the text of the error. The result depends on the text
/// alone; the format is not said here.
#[verifier::external_body]
pub(crate) fn read_key(pem: &[u8]) -> (r: Result<Option<PrivateKey>, String>)
    ensures
        match r {
            Ok(Some(key)) => pem_private_key(pem@) == Ok::<_, Seq<char>>(
                Some((key.kind, key.der@)),
            ),
            Ok(None) => pem_private_key(pem@) == Ok::<Option<(KeyKind, Seq<u8>)>, Seq<char>>(None),
            Err(e) => pem_private_key(pem@) == Err::<Option<(KeyKind, Seq<u8>)>, _>(e@),
        },
{
    let mut reader: &[u8] = pem;
    let found = rustls_pemfile::private_key(&mut reader).map_err(|e| e.to_string())?;
    Ok(match found {
        None => None,
        Some(k) => Some(PrivateKey {
            kind: match &k {
                PrivateKeyDer::Pkcs1(_) => KeyKind::Pkcs1,
                PrivateKeyDer::Sec1(_) => KeyKind::Sec1,
                _ => KeyKind::Pkcs8,
            },
            der: k.secret_der().to_vec(),
        }),
    })
}

/// What came of reading a file.
#[derive(Debug)]
pub enum FileRead {
    NotFound,
    /// The file could not be opened.
    OpenFailed(String),
    /// The file could not be read to its end.
    Broken(String),
    Contents(Vec<u8>),
}

/// The chain of certificates in a file, or the error.
pub open spec fn loaded_chain(path: Seq<char>, file: FileRead) -> Result<
    Seq<Seq<u8>>,
    TlsErrorView,
> {
    match file {
        FileRead::NotFound => Err(TlsErrorView::CertNotFound(path)),
        FileRead::OpenFailed(e) => Err(TlsErrorView::Io { path, source: e@ }),
        FileRead::Broken(e) => Err(TlsErrorView::CertParse { path, reason: e@ }),
        FileRead::Contents(pem) => match pem_certificates(pem@) {
            Err(reason) => Err(TlsErrorView::CertParse { path, reason }),
            Ok(chain) => if chain.len() == 0 {
                Err(TlsErrorView::NoCerts(path))
            } else if exists|i: int| 0 <= i < chain.len() && (#[trigger] chain[i]).len() == 0 {
                Err(TlsErrorView::InvalidChain("empty cert in "@ + path))
            } else {
                Ok(chain)
            },
        },
    }
}

/// The private key in a file, or the error.
pub open spec fn loaded_key(path: Seq<char>, file: FileRead) -> Result<
    (KeyKind, Seq<u8>),
    TlsErrorView,
> {
    match file {
        FileRead::NotFound => Err(TlsErrorView::KeyNotFound(path)),
        FileRead::OpenFailed(e) => Err(TlsErrorView::Io { path, source: e@ }),
        FileRead::Broken(e) => Err(TlsErrorView::KeyParse { path, reason: e@ }),
        FileRead::Contents(pem) => match pem_private_key(pem@) {
            Err(reason) => Err(TlsErrorView::KeyParse { path, reason }),
            Ok(None) => Err(TlsErrorView::NoKey(path)),
            Ok(Some(key)) => Ok(key),
        },
    }
}

/// What is made of the certificates that were read from a file: there has to
/// be one, and none may be empty.
pub fn check_chain(path: &str, found: Result<Vec<Vec<u8>>, String>) -> (r: Result<
    Vec<Vec<u8>>,
    TlsError,
>)
    ensures
        match found {
            Err(reason) => r matches Err(e) && e@ == (TlsErrorView::CertParse {
                path: path@,
                reason: reason@,
            }),
            Ok(chain) => if chain@.len() == 0 {
                r matches Err(e) && e@ == TlsErrorView::NoCerts(path@)
            } else if exists|i: int|
                0 <= i < chain@.len() && (#[trigger] chain_view(chain@)[i]).len() == 0 {
                r matches Err(e) && e@ == TlsErrorView::InvalidChain("empty cert in "@ + path@)
            } else {
                r == Ok::<Vec<Vec<u8>>, TlsError>(chain)
            },
        },
{
    let chain = match found {
        Err(reason) => {
            return Err(TlsError::CertParse { path: path.to_string(), reason });
        },
        Ok(chain) => chain,
    };
    if chain.len() == 0 {
        return Err(TlsError::NoCerts(path.to_string()));
    }
    let ghost whole = chain;
    let mut i: usize = 0;
    while i < chain.len()
        invariant
            i <= chain@.len(),
            chain == whole,
            found == Ok::<Vec<Vec<u8>>, String>(whole),
            chain@.len() > 0,
            forall|j: int| 0 <= j < i ==> (#[trigger] chain_view(chain@)[j]).len() > 0,
        decreases chain@.len() - i,
    {
        if chain[i].len() == 0 {
            assert(chain_view(chain@)[i as int].len() == 0);
            return Err(TlsError::InvalidChain(cat("empty cert in ", path)));
        }
        i += 1;
    }
    Ok(chain)
}

/// The chain of certificates in a file.
pub fn load_cert_chain(path: &str, file: &FileRead) -> (r: Result<Vec<Vec<u8>>, TlsError>)
    ensures
        match r {
            Ok(chain) => loaded_chain(path@, *file) == Ok::<_, TlsErrorView>(chain_view(chain@)),
            Err(e) => loaded_chain(path@, *file) == Err::<Seq<Seq<u8>>, _>(e@),
        },
{
    match file {
        FileRead::NotFound => Err(TlsError::CertNotFound(path.to_string())),
        FileRead::OpenFailed(e) => Err(
            TlsError::Io { path: path.to_string(), source: e.clone() },
        ),
        FileRead::Broken(e) => Err(
            TlsError::CertParse { path: path.to_string(), reason: e.clone() },
        ),
        FileRead::Contents(pem) => check_chain(path, read_certs(pem.as_slice())),
    }
}

/// The private key in a file.
pub fn load_private_key(path: &str, file: &FileRead) -> (r: Result<PrivateKey, TlsError>)
    ensures
        match r {
            Ok(key) => loaded_key(path@, *file) == Ok::<_, TlsErrorView>((key.kind, key.der@)),
            Err(e) => loaded_key(path@, *file) == Err::<(KeyKind, Seq<u8>), _>(e@),
        },
{
    match file {
        FileRead::NotFound => Err(TlsError::KeyNotFound(path.to_string())),
        FileRead::OpenFailed(e) => Err(
            TlsError::Io { path: path.to_string(), source: e.clone() },
        ),
        FileRead::Broken(e) => Err(
            TlsError::KeyParse { path: path.to_string(), reason: e.clone() },
        ),
        FileRead::Contents(pem) => match read_key(pem.as_slice()) {
            Err(reason) => Err(TlsError::KeyParse { path: path.to_string(), reason }),
            Ok(None) => Err(TlsError::NoKey(path.to_string())),
            Ok(Some(key)) => Ok(key),
        },
    }
}

/// `rustls::crypto::CryptoProvider::get_default`: the provider that was
/// installed for the process, if any. Which one that is depends on the
/// process, so nothing is said of it.
#[verifier::external_body]
fn installed_provider() -> (r: Option<Arc<CryptoProvider>>)
{
    CryptoProvider::get_default().cloned()
}

/// Whether a provider is the one that comes with the server.
pub uninterp spec fn is_bundled(provider: CryptoProvider) -> bool;

/// `rustls::crypto::aws_lc_rs::default_provider`: the provider that comes with
/// the server, the same at every call. What it offers is not said here.
#[verifier::external_body]
fn bundled_provider() -> (r: Arc<CryptoProvider>)
    ensures
        is_bundled(*r),
{
    Arc::new(rustls::crypto::aws_lc_rs::default_provider())
}

/// The provider to use: the one installed for the process, or else the bundled
/// one.
pub fn provider_or_bundled(installed: Option<Arc<CryptoProvider>>) -> (r: Arc<CryptoProvider>)
    ensures
        match installed {
            Some(p) => r == p,
            None => is_bundled(*r),
        },
{
    match installed {
        Some(p) => p,
        None => bundled_provider(),
    }
}

/// The provider in use. Which one is installed depends on the process, so what
/// is made of it is said at `provider_or_bundled`.
fn current_provider() -> (r: Arc<CryptoProvider>)
{
    provider_or_bundled(installed_provider())
}

/// What a provider makes of a chain of certificates and a private key, or the
/// text of the error.
pub uninterp spec fn certified(
    chain: Seq<Seq<u8>>,
    kind: KeyKind,
    der: Seq<u8>,
    provider: CryptoProvider,
) -> Result<CertifiedKey, Seq<char>>;

/// `rustls::sign::CertifiedKey::from_der`: the key as the provider reads it,
/// with its chain, or the text of the error; a key that is known not to belong
/// to the first certificate is an error. A provider decodes and validates the
/// bytes of a key, so the result depends on the arguments alone; how keys are
/// read is not said here.
#[verifier::external_body]
pub(crate) fn certify(
    chain: &Vec<Vec<u8>>,
    key: &PrivateKey,
    provider: &CryptoProvider,
) -> (r: Result<CertifiedKey, String>)
    ensures
        match r {
            Ok(ck) => certified(chain_view(chain@), key.kind, key.der@, *provider) == Ok::<
                _,
                Seq<char>,
            >(ck),
            Err(e) => certified(chain_view(chain@), key.kind, key.der@, *provider) == Err::<
                CertifiedKey,
                _,
            >(e@),
        },
{
    let certs = chain.iter().map(|c| CertificateDer::from(c.clone())).collect();
    let der = match key.kind {
        KeyKind::Pkcs1 => PrivateKeyDer::Pkcs1(key.der.clone().into()),
        KeyKind::Sec1 => PrivateKeyDer::Sec1(key.der.clone().into()),
        KeyKind::Pkcs8 => PrivateKeyDer::Pkcs8(key.der.clone().into()),
    };
    CertifiedKey::from_der(certs, der, provider).map_err(|e| e.to_string())
}

/// Why a private key does not belong to its first certificate, or nothing.
pub uninterp spec fn mismatch(ck: CertifiedKey) -> Option<Seq<char>>;

/// `rustls::sign::CertifiedKey::keys_match`: nothing where the private key is
/// known to belong to the first certificate, else the text of the error. It
/// depends on the pair alone.
#[verifier::external_body]
fn keys_mismatch(ck: &CertifiedKey) -> (r: Option<String>)
    ensures
        match r {
            Some(e) => mismatch(*ck) == Some(e@),
            None => mismatch(*ck) is None,
        },
{
    match ck.keys_match() {
        Ok(()) => None,
        Err(e) => Some(e.to_string()),
    }
}

/// Why a provider rejects a chain and a key, or nothing.
pub open spec fn pair_error(
    chain: Seq<Seq<u8>>,
    kind: KeyKind,
    der: Seq<u8>,
    provider: CryptoProvider,
) -> Option<TlsErrorView> {
    match certified(chain, kind, der, provider) {
        Err(e) => Some(TlsErrorView::KeyMismatch(e)),
        Ok(ck) => match mismatch(ck) {
            Some(e) => Some(TlsErrorView::KeyMismatch(e)),
            None => None,
        },
    }
}

/// What follows from the provider's word on a pair and from the comparison of
/// its keys.
pub fn settle_pair(read: Option<String>, compared: Option<String>) -> (r: Result<(), TlsError>)
    ensures
        match (read, compared) {
            (Some(e), _) => r matches Err(x) && x@ == TlsErrorView::KeyMismatch(e@),
            (None, Some(e)) => r matches Err(x) && x@ == TlsErrorView::KeyMismatch(e@),
            (None, None) => r is Ok,
        },
{
    match (read, compared) {
        (Some(e), _) => Err(TlsError::KeyMismatch(e)),
        (None, Some(e)) => Err(TlsError::KeyMismatch(e)),
        (None, None) => Ok(()),
    }
}

/// Whether a provider accepts a chain and a key, and the key belongs to the
/// first certificate.
pub fn validate_pair_with(
    chain: &Vec<Vec<u8>>,
    key: &PrivateKey,
    provider: &CryptoProvider,
) -> (r: Result<(), TlsError>)
    ensures
        match r {
            Ok(_) => pair_error(chain_view(chain@), key.kind, key.der@, *provider) is None,
            Err(e) => pair_error(chain_view(chain@), key.kind, key.der@, *provider) == Some(e@),
        },
{
    match certify(chain, key, provider) {
        Err(e) => settle_pair(Some(e), None),
        Ok(ck) => settle_pair(None, keys_mismatch(&ck)),
    }
}

/// Whether the provider in use accepts a chain and a key, and the key belongs
/// to the first certificate.
pub fn validate_pair(chain: &Vec<Vec<u8>>, key: &PrivateKey) -> (r: Result<(), TlsError>)
    ensures
        exists|provider: CryptoProvider|
            match r {
                Ok(_) => (#[trigger] pair_error(
                    chain_view(chain@),
                    key.kind,
                    key.der@,
                    provider,
                )) is None,
                Err(e) => pair_error(chain_view(chain@), key.kind, key.der@, provider) == Some(e@),
            },
{
    let provider = current_provider();
    let r = validate_pair_with(chain, key, &provider);
    proof {
        let p = *provider;
        let known = pair_error(chain_view(chain@), key.kind, key.der@, p);
        assert(match r {
            Ok(_) => known is None,
            Err(e) => known == Some(e@),
        });
    }
    r
}

/// The files of a certificate and its key.
#[derive(Debug)]
pub struct PemPair {
    pub cert_path: String,
    pub cert: FileRead,
    pub key_path: String,
    pub key: FileRead,
}

/// The chain and the key of a pair of files, or the error; that of the chain
/// comes first.
pub open spec fn loaded_pair(pair: PemPair) -> Result<
    (Seq<Seq<u8>>, KeyKind, Seq<u8>),
    TlsErrorView,
> {
    match loaded_chain(pair.cert_path@, pair.cert) {
        Err(e) => Err(e),
        Ok(chain) => match loaded_key(pair.key_path@, pair.key) {
            Err(e) => Err(e),
            Ok(key) => Ok((chain, key.0, key.1)),
        },
    }
}

/// The chain and the key of a pair of files.
pub fn load_pair(pair: &PemPair) -> (r: Result<(Vec<Vec<u8>>, PrivateKey), TlsError>)
    ensures
        match r {
            Ok(p) => loaded_pair(*pair) == Ok::<_, TlsErrorView>(
                (chain_view(p.0@), p.1.kind, p.1.der@),
            ),
            Err(e) => loaded_pair(*pair) == Err::<(Seq<Seq<u8>>, KeyKind, Seq<u8>), _>(e@),
        },
{
    let chain = match load_cert_chain(pair.cert_path.as_str(), &pair.cert) {
        Ok(c) => c,
        Err(e) => {
            return Err(e);
        },
    };
    match load_private_key(pair.key_path.as_str(), &pair.key) {
        Ok(key) => Ok((chain, key)),
        Err(e) => Err(e),
    }
}

/// The protocols that the server offers: `http/1.1`.
pub open spec fn offered_protocols() -> Seq<Seq<u8>> {
    seq![seq![104u8, 116u8, 116u8, 112u8, 47u8, 49u8, 46u8, 49u8]]
}

/// The protocols that the server offers: `http/1.1`.
pub fn alpn_protocols() -> (r: Vec<Vec<u8>>)
    ensures
        chain_view(r@) == offered_protocols(),
{
    let mut http: Vec<u8> = Vec::new();
    http.push(104);
    http.push(116);
    http.push(116);
    http.push(112);
    http.push(47);
    http.push(49);
    http.push(46);
    http.push(49);
    assert(http@ =~= offered_protocols()[0]);
    let mut r: Vec<Vec<u8>> = Vec::new();
    r.push(http);
    assert(chain_view(r@) =~= offered_protocols());
    r
}

/// Whether building the configuration of a server with one certificate can
/// give an outcome: a configuration, or the text of an error.
pub uninterp spec fn can_configure(
    chain: Seq<Seq<u8>>,
    kind: KeyKind,
    der: Seq<u8>,
    provider: CryptoProvider,
    protocols: Seq<Seq<u8>>,
    outcome: Result<RustlsConfig, Seq<char>>,
) -> bool;

/// `rustls::ServerConfig::builder_with_provider` with the default versions, no
/// client authentication and `with_single_cert`; then the protocols are set.
/// It is a configuration, or the text of the error where the provider does
/// not support the versions or rejects the pair. Every configuration has
/// caches of its own, so only this is said: the outcome is one that these
/// arguments can give. What is in a configuration is not said here.
#[verifier::external_body]
fn single_cert_config(
    chain: &Vec<Vec<u8>>,
    key: &PrivateKey,
    provider: &Arc<CryptoProvider>,
    protocols: Vec<Vec<u8>>,
) -> (r: Result<RustlsConfig, String>)
    ensures
        can_configure(
            chain_view(chain@),
            key.kind,
            key.der@,
            **provider,
            chain_view(protocols@),
            match r {
                Ok(c) => Ok(c),
                Err(e) => Err(e@),
            },
        ),
{
    let certs = chain.iter().map(|c| CertificateDer::from(c.clone())).collect();
    let der = match key.kind {
        KeyKind::Pkcs1 => PrivateKeyDer::Pkcs1(key.der.clone().into()),
        KeyKind::Sec1 => PrivateKeyDer::Sec1(key.der.clone().into()),
        KeyKind::Pkcs8 => PrivateKeyDer::Pkcs8(key.der.clone().into()),
    };
    let mut config = RustlsConfig::builder_with_provider(provider.clone())
        .with_safe_default_protocol_versions()
        .and_then(|b| b.with_no_client_auth().with_single_cert(certs, der))
        .map_err(|e| e.to_string())?;
    config.alpn_protocols = protocols;
    Ok(config)
}

/// The outcome of building a configuration, with the content of the error.
pub open spec fn build_outcome(r: Result<RustlsConfig, TlsError>) -> Result<
    RustlsConfig,
    TlsErrorView,
> {
    match r {
        Ok(c) => Ok(c),
        Err(e) => Err(e@),
    }
}

/// Whether making a configuration of a pair of files can have an outcome: the
/// files are read, the pair is validated, and only then a configuration is
/// built.
pub open spec fn can_build_single(
    pair: PemPair,
    provider: CryptoProvider,
    outcome: Result<RustlsConfig, TlsErrorView>,
) -> bool {
    match loaded_pair(pair) {
        Err(e) => outcome == Err::<RustlsConfig, _>(e),
        Ok(p) => match pair_error(p.0, p.1, p.2, provider) {
            Some(e) => outcome == Err::<RustlsConfig, _>(e),
            None => match outcome {
                Ok(c) => can_configure(p.0, p.1, p.2, provider, offered_protocols(), Ok(c)),
                Err(TlsErrorView::Rustls(e)) => can_configure(
                    p.0,
                    p.1,
                    p.2,
                    provider,
                    offered_protocols(),
                    Err(e),
                ),
                Err(_) => false,
            },
        },
    }
}

/// A pair of files that is accepted makes a configuration, or an error of the
/// TLS library and no other; one that is not accepted makes its own error.
pub proof fn accepted_pairs_are_configured(
    pair: PemPair,
    provider: CryptoProvider,
    outcome: Result<RustlsConfig, TlsErrorView>,
)
    requires
        can_build_single(pair, provider, outcome),
    ensures
        loaded_pair(pair) matches Err(e) ==> outcome == Err::<RustlsConfig, _>(e),
        loaded_pair(pair) matches Ok(p) ==> (pair_error(p.0, p.1, p.2, provider) matches Some(e)
            ==> outcome == Err::<RustlsConfig, _>(e)),
        loaded_pair(pair) matches Ok(p) ==> pair_error(p.0, p.1, p.2, provider) is None
            && outcome is Err ==> outcome->Err_0 is Rustls,
        outcome is Ok ==> loaded_pair(pair) is Ok,
{
}

/// The configuration made of a pair of files with a provider.
pub fn build_single_config_with(pair: &PemPair, provider: &Arc<CryptoProvider>) -> (r: Result<
    RustlsConfig,
    TlsError,
>)
    ensures
        can_build_single(*pair, **provider, build_outcome(r)),
{
    let (chain, key) = match load_pair(pair) {
        Ok(p) => p,
        Err(e) => {
            return Err(e);
        },
    };
    if let Err(e) = validate_pair_with(&chain, &key, provider) {
        return Err(e);
    }
    match single_cert_config(&chain, &key, provider, alpn_protocols()) {
        Ok(c) => Ok(c),
        Err(e) => Err(TlsError::Rustls(e)),
    }
}

/// The configuration made of a pair of files with the provider in use.
pub fn build_single_config(pair: &PemPair) -> (r: Result<RustlsConfig, TlsError>)
    ensures
        exists|provider: CryptoProvider| #[trigger]
            can_build_single(*pair, provider, build_outcome(r)),
{
    let provider = current_provider();
    let r = build_single_config_with(pair, &provider);
    assert(can_build_single(*pair, *provider, build_outcome(r)));
    r
}

/// A configuration is only made of a pair whose files were read and whose key
/// was found to belong to its certificate.
pub proof fn only_valid_pairs_are_served(
    pair: PemPair,
    provider: CryptoProvider,
    outcome: Result<RustlsConfig, TlsErrorView>,
)
    requires
        can_build_single(pair, provider, outcome),
        outcome is Ok,
    ensures
        loaded_pair(pair) matches Ok(p) && p.0.len() > 0 && pair_error(
            p.0,
            p.1,
            p.2,
            provider,
        ) is None,
{
}

/// A pair of files is loaded if and only if both were read, the one holds
/// certificates and none that is empty, and the other holds a key; what is
/// loaded is what they hold.
pub proof fn pairs_are_loaded_whole(pair: PemPair, chain: Seq<Seq<u8>>, key: (KeyKind, Seq<u8>))
    ensures
        loaded_pair(pair) == Ok::<_, TlsErrorView>((chain, key.0, key.1)) <==> {
            &&& pair.cert matches FileRead::Contents(c)
            &&& pair.key matches FileRead::Contents(k)
            &&& pem_certificates(c@) == Ok::<_, Seq<char>>(chain)
            &&& pem_private_key(k@) == Ok::<_, Seq<char>>(Some(key))
            &&& chain.len() > 0
            &&& forall|i: int| 0 <= i < chain.len() ==> (#[trigger] chain[i]).len() > 0
        },
{
}

/// What a certificate file lacks is told with its path.
pub proof fn bad_chains_are_told(path: Seq<char>, pem: Vec<u8>, chain: Seq<Seq<u8>>, at: int)
    requires
        pem_certificates(pem@) == Ok::<_, Seq<char>>(chain),
    ensures
        chain.len() == 0 ==> loaded_chain(path, FileRead::Contents(pem)) == Err::<Seq<Seq<u8>>, _>(
            TlsErrorView::NoCerts(path),
        ),
        0 <= at < chain.len() && chain[at].len() == 0 ==> loaded_chain(
            path,
            FileRead::Contents(pem),
        ) == Err::<Seq<Seq<u8>>, _>(TlsErrorView::InvalidChain("empty cert in "@ + path)),
        loaded_chain(path, FileRead::NotFound) == Err::<Seq<Seq<u8>>, _>(
            TlsErrorView::CertNotFound(path),
        ),
{
}

/// A pair is accepted if and only if the provider can read it and the key
/// belongs to the certificate.
pub proof fn accepted_pairs_match(
    chain: Seq<Seq<u8>>,
    kind: KeyKind,
    der: Seq<u8>,
    provider: CryptoProvider,
)
    ensures
        pair_error(chain, kind, der, provider) is None <==> {
            &&& certified(chain, kind, der, provider) matches Ok(ck)
            &&& mismatch(ck) is None
        },
{
}

/// The server offers HTTP/1.1 and nothing else.
pub proof fn one_protocol_is_offered()
    ensures
        offered_protocols() == seq![crate::headers::ascii("http/1.1"@)],
{
    reveal_strlit("http/1.1");
    assert(offered_protocols()[0] =~= crate::headers::ascii("http/1.1"@));
    assert(offered_protocols() =~= seq![crate::headers::ascii("http/1.1"@)]);
}

/// The key of a pair of files, as a provider reads it, or the error.
pub open spec fn certified_pair(pair: PemPair, provider: CryptoProvider) -> Result<
    CertifiedKey,
    TlsErrorView,
> {
    match loaded_pair(pair) {
        Err(e) => Err(e),
        Ok(p) => match certified(p.0, p.1, p.2, provider) {
            Err(e) => Err(TlsErrorView::KeyMismatch(e)),
            Ok(ck) => Ok(ck),
        },
    }
}

fn certify_pair(pair: &PemPair, provider: &CryptoProvider) -> (r: Result<CertifiedKey, TlsError>)
    ensures
        match r {
            Ok(ck) => certified_pair(*pair, *provider) == Ok::<_, TlsErrorView>(ck),
            Err(e) => certified_pair(*pair, *provider) == Err::<CertifiedKey, _>(e@),
        },
{
    let (chain, key) = match load_pair(pair) {
        Ok(p) => p,
        Err(e) => {
            return Err(e);
        },
    };
    match certify(&chain, &key, provider) {
        Ok(ck) => Ok(ck),
        Err(e) => Err(TlsError::KeyMismatch(e)),
    }
}

/// The keys by name that a list of entries gives, or the first error.
pub open spec fn certified_entries(entries: Seq<(String, PemPair)>, provider: CryptoProvider) -> Result<
    Map<Seq<char>, CertifiedKey>,
    TlsErrorView,
>
    decreases entries.len(),
{
    if entries.len() == 0 {
        Ok(Map::empty())
    } else {
        match certified_entries(entries.drop_last(), provider) {
            Err(e) => Err(e),
            Ok(keys) => match certified_pair(entries.last().1, provider) {
                Err(e) => Err(e),
                Ok(ck) => if crate::tls::resolver::is_server_name(entries.last().0@) {
                    Ok(keys.insert(crate::text::lower(entries.last().0@), ck))
                } else {
                    Err(TlsErrorView::Rustls("unexpected error: Bad DNS name"@))
                },
            },
        }
    }
}

/// The keys that a server chooses from by name, or the first error: first the
/// entries in order, then the default.
pub open spec fn built_sni(
    entries: Seq<(String, PemPair)>,
    default: Option<PemPair>,
    provider: CryptoProvider,
) -> Result<(Map<Seq<char>, CertifiedKey>, Option<CertifiedKey>), TlsErrorView> {
    match certified_entries(entries, provider) {
        Err(e) => Err(e),
        Ok(keys) => match default {
            None => Ok((keys, None)),
            Some(pair) => match certified_pair(pair, provider) {
                Err(e) => Err(e),
                Ok(ck) => Ok((keys, Some(ck))),
            },
        },
    }
}

/// Each entry adds its key under its name in lower case, a later one in place
/// of an earlier one; an entry that fails fails them all.
pub proof fn entries_add_their_keys(
    entries: Seq<(String, PemPair)>,
    entry: (String, PemPair),
    provider: CryptoProvider,
)
    ensures
        ({
            let before = certified_entries(entries, provider);
            let after = certified_entries(entries.push(entry), provider);
            let key = certified_pair(entry.1, provider);
            &&& before is Ok && key is Ok && crate::tls::resolver::is_server_name(entry.0@) ==> after
                == Ok::<_, TlsErrorView>(
                before->Ok_0.insert(crate::text::lower(entry.0@), key->Ok_0),
            )
            &&& before is Err || key is Err || !crate::tls::resolver::is_server_name(entry.0@)
                ==> after is Err
            &&& before is Err ==> after == before
            &&& before is Ok && key is Err ==> after is Err && after->Err_0 == key->Err_0
            &&& before is Ok && key is Ok && !crate::tls::resolver::is_server_name(entry.0@)
                ==> after == Err::<Map<Seq<char>, CertifiedKey>, _>(
                TlsErrorView::Rustls("unexpected error: Bad DNS name"@),
            )
        }),
{
    assert(entries.push(entry).drop_last() =~= entries);
}

proof fn entries_prefix(entries: Seq<(String, PemPair)>, provider: CryptoProvider, n: int)
    requires
        0 <= n <= entries.len(),
        certified_entries(entries.take(n), provider) is Err,
    ensures
        certified_entries(entries, provider) == certified_entries(entries.take(n), provider),
    decreases entries.len() - n,
{
    if n == entries.len() {
        assert(entries.take(n) =~= entries);
    } else {
        assert(entries.take(n + 1).drop_last() =~= entries.take(n));
        entries_prefix(entries, provider, n + 1);
    }
}

/// The resolver made of entries and a default with a provider.
pub fn build_sni_config_with(
    entries: &Vec<(String, PemPair)>,
    default: &Option<PemPair>,
    provider: &CryptoProvider,
) -> (r: Result<SniResolver, TlsError>)
    ensures
        match r {
            Ok(resolver) => built_sni(entries@, *default, *provider) == Ok::<_, TlsErrorView>(
                (resolver.by_name(), resolver.fallback()),
            ),
            Err(e) => built_sni(entries@, *default, *provider) == Err::<
                (Map<Seq<char>, CertifiedKey>, Option<CertifiedKey>),
                _,
            >(e@),
        },
{
    let mut resolver = SniResolver::new();
    let mut i: usize = 0;
    while i < entries.len()
        invariant
            i <= entries@.len(),
            resolver.fallback() is None,
            certified_entries(entries@.take(i as int), *provider) == Ok::<_, TlsErrorView>(
                resolver.by_name(),
            ),
        decreases entries@.len() - i,
    {
        proof {
            assert(entries@.take(i + 1).drop_last() =~= entries@.take(i as int));
            assert(entries@.take(i + 1).last() == entries@[i as int]);
        }
        let ck = match certify_pair(&entries[i].1, provider) {
            Ok(ck) => ck,
            Err(e) => {
                proof {
                    entries_prefix(entries@, *provider, i + 1);
                }
                return Err(e);
            },
        };
        if !resolver.add(entries[i].0.as_str(), ck) {
            proof {
                entries_prefix(entries@, *provider, i + 1);
            }
            return Err(TlsError::Rustls("unexpected error: Bad DNS name".to_string()));
        }
        i += 1;
    }
    assert(entries@.take(i as int) =~= entries@);
    if let Some(pair) = default {
        match certify_pair(pair, provider) {
            Ok(ck) => {
                resolver.set_default(ck);
            },
            Err(e) => {
                return Err(e);
            },
        }
    }
    Ok(resolver)
}

/// The resolver made of entries and a default with the provider in use. A
/// server with this resolver offers the same protocols as one with a single
/// certificate.
pub fn build_sni_config(entries: &Vec<(String, PemPair)>, default: &Option<PemPair>) -> (r: Result<
    SniResolver,
    TlsError,
>)
    ensures
        exists|provider: CryptoProvider|
            match r {
                Ok(resolver) => #[trigger] built_sni(entries@, *default, provider) == Ok::<
                    _,
                    TlsErrorView,
                >((resolver.by_name(), resolver.fallback())),
                Err(e) => built_sni(entries@, *default, provider) == Err::<
                    (Map<Seq<char>, CertifiedKey>, Option<CertifiedKey>),
                    _,
                >(e@),
            },
{
    let provider = current_provider();
    let r = build_sni_config_with(entries, default, &provider);
    proof {
        let p = *provider;
        let known = built_sni(entries@, *default, p);
        assert(match r {
            Ok(resolver) => known == Ok::<_, TlsErrorView>(
                (resolver.by_name(), resolver.fallback()),
            ),
            Err(e) => known == Err::<
                (Map<Seq<char>, CertifiedKey>, Option<CertifiedKey>),
                _,
            >(e@),
        });
    }
    r
}

} // verus!
