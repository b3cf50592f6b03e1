//! The configuration of a server.

use vstd::prelude::*;
use crate::text;
use crate::text::{cat, str_eq, to_lower};

verus! {

/// The configuration of a server. Arguments are read elsewhere; this is what
/// the server goes by.
#[derive(Debug)]
pub struct ServerConfig {
    /// The application, as `module:attr`.
    pub app_spec: String,
    /// The host to bind (stand-alone only).
    pub host: String,
    /// The port to bind (stand-alone only).
    pub port: u16,
    /// The number of workers (a stand-alone server runs one).
    pub workers: usize,
    /// `debug`, `info`, `warning`, `error` or `quiet`.
    pub log_level: String,
    /// The `root_path` of scopes.
    pub root_path: String,
    /// `auto`, `on` or `off`.
    pub lifespan: String,
    /// Write an entry to the standard error for each request.
    pub access_log: bool,
    /// How the server is secured.
    pub security: Security,
}

/// How a server is secured: its certificate, and how to get a new one.
#[derive(Debug)]
pub struct Security {
    pub tls_cert: Option<String>,
    pub tls_key: Option<String>,
    pub redirect_http_to_https: bool,
    pub acme_directory: Option<String>,
    pub acme_email: Option<String>,
    pub acme_domains: Vec<String>,
    pub acme_dir: Option<String>,
}

impl Security {
    /// No certificate at all.
    pub fn none() -> (r: Security)
        ensures
            r.tls_cert is None,
            r.tls_key is None,
            !r.redirect_http_to_https,
            r.acme_directory is None,
            r.acme_email is None,
            r.acme_domains@.len() == 0,
            r.acme_dir is None,
    {
        Security {
            tls_cert: None,
            tls_key: None,
            redirect_http_to_https: false,
            acme_directory: None,
            acme_email: None,
            acme_domains: Vec::new(),
            acme_dir: None,
        }
    }
}

/// Whether a log level asks for silence.
pub open spec fn is_quiet(level: Seq<char>) -> bool {
    text::lower(level) == "quiet"@ || text::lower(level) == "silent"@
}

/// Silence is asked for by two words, in any case.
pub proof fn two_words_ask_for_silence(level: Seq<char>)
    ensures
        is_quiet("quiet"@) && is_quiet("silent"@),
        !is_quiet("info"@),
        is_quiet(text::lower(level)) == is_quiet(level),
{
    reveal_strlit("quiet");
    reveal_strlit("silent");
    reveal_strlit("info");
    assert(text::lower("quiet"@) =~= "quiet"@);
    assert(text::lower("silent"@) =~= "silent"@);
    assert(text::lower("info"@) =~= "info"@);
    assert("info"@.len() == 4 && "quiet"@.len() == 5 && "silent"@.len() == 6);
    text::lower_is_by_letter(level);
}

/// Certificates are renewed for one domain as for many, but not without a
/// domain, and not without an address for the account.
pub proof fn renewal_takes_a_domain_and_an_address(c: ServerConfig)
    ensures
        c.security.acme_domains@.len() == 0 ==> !c.acme_enabled(),
        c.security.acme_email is None ==> !c.acme_enabled(),
        c.security.acme_domains@.len() >= 1 && c.security.acme_email is Some ==> c.acme_enabled(),
{
}

impl ServerConfig {
    /// A configuration without TLS.
    pub fn new(
        app_spec: String,
        host: String,
        port: u16,
        workers: usize,
        log_level: String,
        root_path: String,
        lifespan: String,
        access_log: bool,
    ) -> (r: ServerConfig)
        ensures
            r.app_spec == app_spec,
            r.host == host,
            r.port == port,
            r.workers == workers,
            r.log_level == log_level,
            r.root_path == root_path,
            r.lifespan == lifespan,
            r.access_log == access_log,
            r.security.tls_cert is None,
            r.security.tls_key is None,
            !r.security.redirect_http_to_https,
            r.security.acme_directory is None,
            r.security.acme_email is None,
            r.security.acme_domains@.len() == 0,
            r.security.acme_dir is None,
    {
        ServerConfig {
            app_spec,
            host,
            port,
            workers,
            log_level,
            root_path,
            lifespan,
            access_log,
            security: Security::none(),
        }
    }

    /// The same configuration, secured otherwise.
    pub fn secured(self, security: Security) -> (r: ServerConfig)
        ensures
            r == (ServerConfig { security, ..self }),
    {
        ServerConfig {
            app_spec: self.app_spec,
            host: self.host,
            port: self.port,
            workers: self.workers,
            log_level: self.log_level,
            root_path: self.root_path,
            lifespan: self.lifespan,
            access_log: self.access_log,
            security,
        }
    }

    /// Certificates are renewed where there are domains and an address for
    /// the account.
    pub open spec fn acme_enabled(self) -> bool {
        self.security.acme_domains@.len() > 0 && self.security.acme_email is Some
    }

    /// Whether certificates are renewed.
    pub fn is_acme_enabled(&self) -> (r: bool)
        ensures
            r == self.acme_enabled(),
    {
        self.security.acme_domains.len() > 0 && self.security.acme_email.is_some()
    }

    fn is_silent(&self) -> (r: bool)
        ensures
            r == is_quiet(self.log_level@),
    {
        let level = to_lower(self.log_level.as_str());
        str_eq(level.as_str(), "quiet") || str_eq(level.as_str(), "silent")
    }

    /// The line to print for a piece of information: none where the log level
    /// asks for silence.
    pub fn log_info(&self, msg: &str) -> (r: Option<String>)
        ensures
            r is None <==> is_quiet(self.log_level@),
            r matches Some(line) ==> line@ == "INFO rustwasgi: "@ + msg@,
    {
        if self.is_silent() {
            None
        } else {
            Some(cat("INFO rustwasgi: ", msg))
        }
    }

    /// The line to print for a warning: none where the log level asks for
    /// silence.
    pub fn log_warn(&self, msg: &str) -> (r: Option<String>)
        ensures
            r is None <==> is_quiet(self.log_level@),
            r matches Some(line) ==> line@ == "WARN rustwasgi: "@ + msg@,
    {
        if self.is_silent() {
            None
        } else {
            Some(cat("WARN rustwasgi: ", msg))
        }
    }
}

} // verus!
