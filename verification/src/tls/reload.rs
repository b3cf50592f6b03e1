//! The configuration in use, and its replacement while the server runs.

use vstd::prelude::*;
use std::sync::Arc;
use rustls::crypto::CryptoProvider;
use rustls::ServerConfig as RustlsConfig;
use tokio_rustls::TlsAcceptor;
use crate::text::cat;
use crate::tls::config;
use crate::tls::config::{build_single_config, PemPair, TlsError, TlsErrorView};
use crate::tls::resolver::SniResolver;

verus! {

#[verifier::external_type_specification]
#[verifier::external_body]
pub struct ExTlsAcceptor(tokio_rustls::TlsAcceptor);

/// The acceptor of connections under a configuration.
pub uninterp spec fn acceptor_for(config: RustlsConfig) -> TlsAcceptor;

/// `<tokio_rustls::TlsAcceptor as From<Arc<rustls::ServerConfig>>>::from`: an
/// acceptor that handles connections by the configuration. It depends on the
/// configuration alone; what a handshake does is not said here.
#[verifier::external_body]
fn new_acceptor(config: &Arc<RustlsConfig>) -> (r: TlsAcceptor)
    ensures
        r == acceptor_for(**config),
{
    TlsAcceptor::from(config.clone())
}

/// The configuration in use. Connections that were accepted under an earlier
/// one keep it.
pub struct TlsState {
    config: Arc<RustlsConfig>,
    cert_count: usize,
    pub cert_path: Option<String>,
    pub key_path: Option<String>,
}

/// The content of a [`TlsState`].
pub struct TlsStateView {
    pub config: RustlsConfig,
    pub cert_count: nat,
    pub cert_path: Option<Seq<char>>,
    pub key_path: Option<Seq<char>>,
}

/// The content of a text that may be missing.
pub open spec fn optional_text(s: Option<String>) -> Option<Seq<char>> {
    match s {
        Some(t) => Some(t@),
        None => None,
    }
}

impl View for TlsState {
    type V = TlsStateView;

    closed spec fn view(&self) -> TlsStateView {
        TlsStateView {
            config: *self.config,
            cert_count: self.cert_count as nat,
            cert_path: optional_text(self.cert_path),
            key_path: optional_text(self.key_path),
        }
    }
}

/// The configuration of a new state, or the content of the error.
pub open spec fn load_outcome(r: Result<TlsState, TlsError>) -> Result<
    RustlsConfig,
    TlsErrorView,
> {
    match r {
        Ok(state) => Ok(state@.config),
        Err(e) => Err(e@),
    }
}

/// The configuration after a reload that went well, or the content of the
/// error.
pub open spec fn reload_outcome(config: RustlsConfig, r: Result<String, TlsError>) -> Result<
    RustlsConfig,
    TlsErrorView,
> {
    match r {
        Ok(_) => Ok(config),
        Err(e) => Err(e@),
    }
}

impl TlsState {
    /// A state with one certificate from elsewhere.
    pub fn new(config: RustlsConfig) -> (r: TlsState)
        ensures
            r@ == (TlsStateView { config, cert_count: 1, cert_path: None, key_path: None }),
    {
        TlsState { config: Arc::new(config), cert_count: 1, cert_path: None, key_path: None }
    }

    /// A state with the certificate of a pair of files, whose paths it keeps.
    pub fn from_pem_files(pair: &PemPair) -> (r: Result<TlsState, TlsError>)
        ensures
            exists|provider: CryptoProvider| #[trigger]
                config::can_build_single(*pair, provider, load_outcome(r)),
            r matches Ok(state) ==> {
                &&& state@.cert_count == 1
                &&& state@.cert_path == Some(pair.cert_path@)
                &&& state@.key_path == Some(pair.key_path@)
            },
    {
        match build_single_config(pair) {
            Ok(c) => Ok(
                TlsState {
                    config: Arc::new(c),
                    cert_count: 1,
                    cert_path: Some(pair.cert_path.clone()),
                    key_path: Some(pair.key_path.clone()),
                },
            ),
            Err(e) => Err(e),
        }
    }

    /// A state with a configuration that chooses among the certificates of a
    /// resolver.
    pub fn from_sni_entries(config: RustlsConfig, resolver: &SniResolver) -> (r: TlsState)
        ensures
            r@ == (TlsStateView {
                config,
                cert_count: if resolver.by_name().dom().len() < 1 {
                    1
                } else {
                    resolver.by_name().dom().len()
                },
                cert_path: None,
                key_path: None,
            }),
    {
        let names: usize = resolver.count();
        TlsState {
            config: Arc::new(config),
            cert_count: if names < 1 {
                1
            } else {
                names
            },
            cert_path: None,
            key_path: None,
        }
    }

    /// The configuration in use.
    pub fn get(&self) -> (r: &Arc<RustlsConfig>)
        ensures
            **r == self@.config,
    {
        &self.config
    }

    /// An acceptor with the configuration in use.
    pub fn acceptor(&self) -> (r: TlsAcceptor)
        ensures
            r == acceptor_for(self@.config),
    {
        new_acceptor(&self.config)
    }

    /// The number of certificates.
    pub fn cert_count(&self) -> (r: usize)
        ensures
            r == self@.cert_count,
    {
        self.cert_count
    }

    /// Replaces the configuration; all else stays as it is.
    pub fn reload(&mut self, new_config: RustlsConfig)
        ensures
            final(self)@ == (TlsStateView { config: new_config, ..old(self)@ }),
    {
        self.config = Arc::new(new_config);
    }

    /// Replaces the configuration by what a pair of files gives; where that
    /// fails, the one in use stays. The result is the line to print.
    pub fn reload_from_pem(&mut self, pair: &PemPair) -> (r: Result<String, TlsError>)
        ensures
            exists|provider: CryptoProvider| #[trigger]
                config::can_build_single(
                    *pair,
                    provider,
                    reload_outcome(final(self)@.config, r),
                ),
            r matches Ok(line) ==> line@
                == "INFO rustwasgi: certificate reload: new config from "@ + pair.cert_path@ + " "@
                + pair.key_path@,
            r is Ok ==> final(self)@ == (TlsStateView {
                config: final(self)@.config,
                ..old(self)@
            }),
            r is Err ==> final(self)@ == old(self)@,
    {
        match build_single_config(pair) {
            Ok(c) => {
                self.reload(c);
                let a = cat(
                    "INFO rustwasgi: certificate reload: new config from ",
                    pair.cert_path.as_str(),
                );
                let b = cat(a.as_str(), " ");
                Ok(cat(b.as_str(), pair.key_path.as_str()))
            },
            Err(e) => Err(e),
        }
    }
}

/// Replaces configurations on behalf of others.
pub struct TlsReloader {
    pub state: TlsState,
}

impl TlsReloader {
    pub fn new(state: TlsState) -> (r: TlsReloader)
        ensures
            r.state == state,
    {
        TlsReloader { state }
    }

    /// Replaces the configuration. The result is the line to print.
    pub fn reload(&mut self, new_config: RustlsConfig) -> (r: &'static str)
        ensures
            final(self).state@ == (TlsStateView { config: new_config, ..old(self).state@ }),
            r@ == "INFO rustwasgi: certificate reload: new config installed"@,
    {
        self.state.reload(new_config);
        "INFO rustwasgi: certificate reload: new config installed"
    }
}

} // verus!
