//! The installation of a certificate and its key.
//!
//! Both are checked before anything is written; both are written to temporary
//! files, and the old ones kept aside, before either takes the place of an old
//! one; the server takes them up last. Where a step fails, what was there
//! before is put back.

use vstd::prelude::*;
use rustls::crypto::CryptoProvider;
use x509_parser::prelude::{FromDer, X509Certificate};
use crate::text::cat;
use crate::tls::config;
use crate::tls::config::{
    read_certs, read_key, validate_pair, validate_pair_with, PrivateKey, TlsError,
};

verus! {

/// The end of a certificate's validity in seconds since 1970, or why the
/// certificate cannot be read.
pub uninterp spec fn not_after(der: Seq<u8>) -> Result<int, Seq<char>>;

/// `x509_parser::certificate::X509Certificate::from_der`, and of its validity
/// the end, as a Unix time; or the text of the error. The result depends on
/// the bytes alone; the format is not said here.
#[verifier::external_body]
pub(crate) fn x509_expiry(der: &[u8]) -> (r: Result<i64, String>)
    ensures
        match r {
            Ok(t) => not_after(der@) == Ok::<_, Seq<char>>(t as int),
            Err(e) => not_after(der@) == Err::<int, _>(e@),
        },
{
    match X509Certificate::from_der(der) {
        Ok((_, cert)) => Ok(cert.validity().not_after.to_datetime().unix_timestamp()),
        Err(e) => Err(e.to_string()),
    }
}

/// Why a certificate and its key, both as PEM texts, cannot be installed, or
/// nothing.
pub open spec fn pem_pair_error(
    cert_pem: Seq<u8>,
    key_pem: Seq<u8>,
    provider: CryptoProvider,
) -> Option<Seq<char>> {
    match config::pem_certificates(cert_pem) {
        Err(e) => Some("cert parse: "@ + e),
        Ok(chain) => if chain.len() == 0 {
            Some("no certs"@)
        } else {
            match config::pem_private_key(key_pem) {
                Err(e) => Some("key parse: "@ + e),
                Ok(None) => Some("no key"@),
                Ok(Some(key)) => match config::pair_error(chain, key.0, key.1, provider) {
                    Some(e) => Some(e.text()),
                    None => if not_after(chain[0]) is Err {
                        Some("x509 parse failed"@)
                    } else {
                        None
                    },
                },
            }
        },
    }
}

/// The chain and the key of two PEM texts, or the text of the error.
fn read_pem_pair(cert_pem: &Vec<u8>, key_pem: &Vec<u8>) -> (r: Result<
    (Vec<Vec<u8>>, PrivateKey),
    String,
>)
    ensures
        match r {
            Ok(p) => {
                &&& config::pem_certificates(cert_pem@) == Ok::<_, Seq<char>>(
                    config::chain_view(p.0@),
                )
                &&& p.0@.len() > 0
                &&& config::pem_private_key(key_pem@) == Ok::<_, Seq<char>>(
                    Some((p.1.kind, p.1.der@)),
                )
            },
            Err(text) => forall|provider: CryptoProvider|
                #[trigger] pem_pair_error(cert_pem@, key_pem@, provider) == Some(text@),
        },
{
    let chain = match read_certs(cert_pem.as_slice()) {
        Err(e) => {
            return Err(cat("cert parse: ", e.as_str()));
        },
        Ok(c) => c,
    };
    if chain.len() == 0 {
        return Err("no certs".to_string());
    }
    match read_key(key_pem.as_slice()) {
        Err(e) => Err(cat("key parse: ", e.as_str())),
        Ok(None) => Err("no key".to_string()),
        Ok(Some(key)) => Ok((chain, key)),
    }
}

/// What follows from the check of a pair and from reading its first
/// certificate.
pub fn settle_pem_pair(checked: Result<(), TlsError>, readable: bool) -> (r: Result<(), String>)
    ensures
        match checked {
            Err(e) => r matches Err(text) && text@ == e@.text(),
            Ok(_) => if readable {
                r is Ok
            } else {
                r matches Err(text) && text@ == "x509 parse failed"@
            },
        },
{
    match checked {
        Err(e) => Err(e.message()),
        Ok(()) => if readable {
            Ok(())
        } else {
            Err("x509 parse failed".to_string())
        },
    }
}

/// Whether a certificate and its key, both as PEM texts, can be installed, by
/// the word of a provider.
pub fn validate_pem_pair_with(
    cert_pem: &Vec<u8>,
    key_pem: &Vec<u8>,
    provider: &CryptoProvider,
) -> (r: Result<(), String>)
    ensures
        match r {
            Ok(_) => pem_pair_error(cert_pem@, key_pem@, *provider) is None,
            Err(text) => pem_pair_error(cert_pem@, key_pem@, *provider) == Some(text@),
        },
{
    let (chain, key) = match read_pem_pair(cert_pem, key_pem) {
        Ok(p) => p,
        Err(e) => {
            return Err(e);
        },
    };
    let readable = x509_expiry(chain[0].as_slice()).is_ok();
    settle_pem_pair(validate_pair_with(&chain, &key, provider), readable)
}

/// Whether a certificate and its key, both as PEM texts, can be installed, by
/// the word of the provider in use.
pub fn validate_pem_pair(cert_pem: &Vec<u8>, key_pem: &Vec<u8>) -> (r: Result<(), String>)
    ensures
        exists|provider: CryptoProvider|
            match r {
                Ok(_) => (#[trigger] pem_pair_error(cert_pem@, key_pem@, provider)) is None,
                Err(text) => pem_pair_error(cert_pem@, key_pem@, provider) == Some(text@),
            },
{
    let (chain, key) = match read_pem_pair(cert_pem, key_pem) {
        Ok(p) => p,
        Err(e) => {
            proof {
                let any: CryptoProvider = arbitrary();
                assert(pem_pair_error(cert_pem@, key_pem@, any) == Some(e@));
            }
            return Err(e);
        },
    };
    let readable = x509_expiry(chain[0].as_slice()).is_ok();
    let checked = validate_pair(&chain, &key);
    proof {
        let chosen = choose|provider: CryptoProvider|
            match checked {
                Ok(_) => (#[trigger] config::pair_error(
                    config::chain_view(chain@),
                    key.kind,
                    key.der@,
                    provider,
                )) is None,
                Err(e) => config::pair_error(
                    config::chain_view(chain@),
                    key.kind,
                    key.der@,
                    provider,
                ) == Some(e@),
            };
        let known = pem_pair_error(cert_pem@, key_pem@, chosen);
        assert(match checked {
            Ok(_) => known == if not_after(chain@[0]@) is Err {
                Some("x509 parse failed"@)
            } else {
                None
            },
            Err(e) => known == Some(e@.text()),
        });
    }
    settle_pem_pair(checked, readable)
}

/// The steps of an installation.
#[derive(Debug, Clone, Copy, PartialEq, Eq, Structural)]
pub enum InstallStep {
    /// The certificate goes to a temporary file.
    WriteCert,
    /// The key goes to a temporary file.
    WriteKey,
    /// The old certificate is kept aside, too.
    KeepCert,
    /// The old key is kept aside, too.
    KeepKey,
    /// The certificate's temporary file takes its place.
    RenameCert,
    /// The key's temporary file takes its place.
    RenameKey,
    /// The server takes both up.
    Reload,
    /// The old key that was kept takes its place again.
    RestoreKey,
    /// There was no old key: the new one leaves its place.
    RemoveKey,
    /// The old certificate that was kept takes its place again.
    RestoreCert,
    /// There was no old certificate: the new one leaves its place.
    RemoveCert,
    Installed,
    Failed,
}

/// How a step went.
#[derive(Debug)]
pub enum StepOutcome {
    Done,
    /// There is no old file to keep.
    Absent,
    Failed(String),
}

/// The content of a [`StepOutcome`].
pub enum StepOutcomeView {
    Done,
    Absent,
    Failed(Seq<char>),
}

impl View for StepOutcome {
    type V = StepOutcomeView;

    open spec fn view(&self) -> StepOutcomeView {
        match self {
            StepOutcome::Done => StepOutcomeView::Done,
            StepOutcome::Absent => StepOutcomeView::Absent,
            StepOutcome::Failed(e) => StepOutcomeView::Failed(e@),
        }
    }
}

impl InstallStep {
    /// What a step that failed is called.
    pub open spec fn label_text(self) -> Seq<char> {
        match self {
            InstallStep::WriteCert => "write cert tmp: "@,
            InstallStep::WriteKey => "write key tmp: "@,
            InstallStep::KeepCert => "keep cert: "@,
            InstallStep::KeepKey => "keep key: "@,
            InstallStep::RenameCert => "rename cert: "@,
            InstallStep::RenameKey => "rename key: "@,
            InstallStep::Reload => "reload: "@,
            InstallStep::RestoreKey => "restore key: "@,
            InstallStep::RemoveKey => "remove key: "@,
            InstallStep::RestoreCert => "restore cert: "@,
            InstallStep::RemoveCert => "remove cert: "@,
            InstallStep::Installed | InstallStep::Failed => ""@,
        }
    }

    /// What a step that failed is called.
    pub fn label(self) -> (r: &'static str)
        ensures
            r@ == self.label_text(),
    {
        match self {
            InstallStep::WriteCert => "write cert tmp: ",
            InstallStep::WriteKey => "write key tmp: ",
            InstallStep::KeepCert => "keep cert: ",
            InstallStep::KeepKey => "keep key: ",
            InstallStep::RenameCert => "rename cert: ",
            InstallStep::RenameKey => "rename key: ",
            InstallStep::Reload => "reload: ",
            InstallStep::RestoreKey => "restore key: ",
            InstallStep::RemoveKey => "remove key: ",
            InstallStep::RestoreCert => "restore cert: ",
            InstallStep::RemoveCert => "remove cert: ",
            InstallStep::Installed | InstallStep::Failed => "",
        }
    }

    /// Whether this step puts back what was there before.
    pub open spec fn restores(self) -> bool {
        self is RestoreKey || self is RemoveKey || self is RestoreCert || self is RemoveCert
    }

    /// Whether an installation is over.
    pub open spec fn over(self) -> bool {
        self is Installed || self is Failed
    }

    /// Whether a step can go so: only an old file can be absent.
    pub open spec fn admits(self, outcome: StepOutcomeView) -> bool {
        outcome is Absent ==> self is KeepCert || self is KeepKey
    }
}

/// How far an installation is.
pub struct InstallView {
    pub step: InstallStep,
    /// Whether an old certificate was kept.
    pub had_cert: bool,
    /// Whether an old key was kept.
    pub had_key: bool,
    /// What went wrong so far; empty where nothing did.
    pub error: Seq<char>,
    /// Whether something could not be put back.
    pub unrestored: bool,
}

impl InstallView {
    /// An installation before its first step.
    pub open spec fn fresh() -> InstallView {
        InstallView {
            step: InstallStep::WriteCert,
            had_cert: false,
            had_key: false,
            error: Seq::empty(),
            unrestored: false,
        }
    }

    /// The step that takes the new certificate away again.
    pub open spec fn undo_cert(self) -> InstallStep {
        if self.had_cert {
            InstallStep::RestoreCert
        } else {
            InstallStep::RemoveCert
        }
    }

    /// The step that takes the new key away again.
    pub open spec fn undo_key(self) -> InstallStep {
        if self.had_key {
            InstallStep::RestoreKey
        } else {
            InstallStep::RemoveKey
        }
    }

    /// The step after one that went well.
    pub open spec fn following(self) -> InstallStep {
        match self.step {
            InstallStep::WriteCert => InstallStep::WriteKey,
            InstallStep::WriteKey => InstallStep::KeepCert,
            InstallStep::KeepCert => InstallStep::KeepKey,
            InstallStep::KeepKey => InstallStep::RenameCert,
            InstallStep::RenameCert => InstallStep::RenameKey,
            InstallStep::RenameKey => InstallStep::Reload,
            InstallStep::Reload => InstallStep::Installed,
            InstallStep::RestoreKey | InstallStep::RemoveKey => self.undo_cert(),
            _ => InstallStep::Failed,
        }
    }

    /// The step after one that failed: what has taken its place is taken away
    /// again, the last one first.
    pub open spec fn retreat(self) -> InstallStep {
        match self.step {
            InstallStep::RenameKey => self.undo_cert(),
            InstallStep::Reload => self.undo_key(),
            InstallStep::RestoreKey | InstallStep::RemoveKey => self.undo_cert(),
            _ => InstallStep::Failed,
        }
    }

    /// What is known of the errors once a step has failed.
    pub open spec fn failed_with(self, e: Seq<char>) -> Seq<char> {
        if self.step.restores() {
            self.error + "; "@ + self.step.label_text() + e
        } else {
            self.step.label_text() + e
        }
    }

    /// How far the installation is once its step went so.
    pub open spec fn after(self, outcome: StepOutcomeView) -> InstallView {
        if self.step.over() {
            self
        } else if let StepOutcomeView::Failed(e) = outcome {
            InstallView {
                step: self.retreat(),
                error: self.failed_with(e),
                unrestored: self.unrestored || self.step.restores(),
                ..self
            }
        } else {
            InstallView {
                step: self.following(),
                had_cert: if self.step is KeepCert {
                    outcome is Done
                } else {
                    self.had_cert
                },
                had_key: if self.step is KeepKey {
                    outcome is Done
                } else {
                    self.had_key
                },
                ..self
            }
        }
    }
}

/// An installation of a certificate and its key under way.
#[derive(Debug)]
pub struct Install {
    step: InstallStep,
    had_cert: bool,
    had_key: bool,
    error: String,
    unrestored: bool,
}

impl View for Install {
    type V = InstallView;

    closed spec fn view(&self) -> InstallView {
        InstallView {
            step: self.step,
            had_cert: self.had_cert,
            had_key: self.had_key,
            error: self.error@,
            unrestored: self.unrestored,
        }
    }
}

impl Install {
    /// The step to perform.
    pub fn step(&self) -> (r: InstallStep)
        ensures
            r == self@.step,
    {
        self.step
    }

    fn undo_cert(&self) -> (r: InstallStep)
        ensures
            r == self@.undo_cert(),
    {
        if self.had_cert {
            InstallStep::RestoreCert
        } else {
            InstallStep::RemoveCert
        }
    }

    fn undo_key(&self) -> (r: InstallStep)
        ensures
            r == self@.undo_key(),
    {
        if self.had_key {
            InstallStep::RestoreKey
        } else {
            InstallStep::RemoveKey
        }
    }

    /// Takes how the step went.
    pub fn next(&mut self, outcome: StepOutcome)
        requires
            !old(self)@.step.over(),
            old(self)@.step.admits(outcome@),
        ensures
            final(self)@ == old(self)@.after(outcome@),
    {
        let restores = matches!(
            self.step,
            InstallStep::RestoreKey | InstallStep::RemoveKey | InstallStep::RestoreCert
                | InstallStep::RemoveCert
        );
        let kept = matches!(outcome, StepOutcome::Done);
        match outcome {
            StepOutcome::Failed(e) => {
                let text = cat(self.step.label(), e.as_str());
                if restores {
                    let all = cat(self.error.as_str(), "; ");
                    self.error = cat(all.as_str(), text.as_str());
                    self.unrestored = true;
                    proof {
                        let before = old(self)@;
                        assert(before.error + "; "@ + (before.step.label_text() + e@)
                            =~= before.failed_with(e@));
                    }
                } else {
                    self.error = text;
                }
                self.step = match self.step {
                    InstallStep::RenameKey => self.undo_cert(),
                    InstallStep::Reload => self.undo_key(),
                    InstallStep::RestoreKey | InstallStep::RemoveKey => self.undo_cert(),
                    _ => InstallStep::Failed,
                };
            },
            _ => {
                match self.step {
                    InstallStep::KeepCert => {
                        self.had_cert = kept;
                    },
                    InstallStep::KeepKey => {
                        self.had_key = kept;
                    },
                    _ => {},
                }
                self.step = match self.step {
                    InstallStep::WriteCert => InstallStep::WriteKey,
                    InstallStep::WriteKey => InstallStep::KeepCert,
                    InstallStep::KeepCert => InstallStep::KeepKey,
                    InstallStep::KeepKey => InstallStep::RenameCert,
                    InstallStep::RenameCert => InstallStep::RenameKey,
                    InstallStep::RenameKey => InstallStep::Reload,
                    InstallStep::Reload => InstallStep::Installed,
                    InstallStep::RestoreKey | InstallStep::RemoveKey => self.undo_cert(),
                    _ => InstallStep::Failed,
                };
            },
        }
    }

    /// Whether nothing is left that could not be put back: what was kept aside
    /// is of no more use once the installation is over.
    pub fn restored(&self) -> (r: bool)
        ensures
            r == !self@.unrestored,
    {
        !self.unrestored
    }

    /// How the installation went: the text of what went wrong, unless all of
    /// it went well. `None` while it is under way.
    pub fn result(&self) -> (r: Option<Result<(), String>>)
        ensures
            match r {
                None => !self@.step.over(),
                Some(Ok(_)) => self@.step is Installed,
                Some(Err(e)) => self@.step is Failed && e@ == self@.error,
            },
    {
        match self.step {
            InstallStep::Installed => Some(Ok(())),
            InstallStep::Failed => Some(Err(self.error.clone())),
            _ => None,
        }
    }
}

/// Begins the installation of a certificate and its key: nothing is written
/// unless both can be installed.
pub fn atomic_install(cert_pem: &Vec<u8>, key_pem: &Vec<u8>) -> (r: Result<Install, String>)
    ensures
        exists|provider: CryptoProvider|
            match r {
                Ok(install) => (#[trigger] pem_pair_error(cert_pem@, key_pem@, provider)) is None
                    && install@ == InstallView::fresh(),
                Err(text) => pem_pair_error(cert_pem@, key_pem@, provider) == Some(text@),
            },
{
    match validate_pem_pair(cert_pem, key_pem) {
        Ok(()) => {
            let install = Install {
                step: InstallStep::WriteCert,
                had_cert: false,
                had_key: false,
                error: String::new(),
                unrestored: false,
            };
            assert(install@.error =~= Seq::<char>::empty());
            Ok(install)
        },
        Err(e) => Err(e),
    }
}

/// The line that announces an installation.
pub fn installed_line(cert_path: &str, key_path: &str) -> (r: String)
    ensures
        r@ == "INFO rustwasgi: certificate atomically installed "@ + cert_path@ + " "@ + key_path@,
{
    let a = cat("INFO rustwasgi: certificate atomically installed ", cert_path);
    let b = cat(a.as_str(), " ");
    cat(b.as_str(), key_path)
}

/// A certificate and its key can be installed if and only if both can be read,
/// there is a certificate, the key belongs to it, and its validity is known.
pub proof fn installable_pairs_are_sound(
    cert_pem: Seq<u8>,
    key_pem: Seq<u8>,
    provider: CryptoProvider,
)
    ensures
        pem_pair_error(cert_pem, key_pem, provider) is None <==> {
            &&& config::pem_certificates(cert_pem) matches Ok(chain)
            &&& chain.len() > 0
            &&& config::pem_private_key(key_pem) matches Ok(Some(key))
            &&& config::pair_error(chain, key.0, key.1, provider) is None
            &&& not_after(chain[0]) is Ok
        },
{
}

/// What keeps a certificate and its key from being installed is told: the first
/// of the certificate, the key, that they match, and the validity.
pub proof fn unsound_pairs_are_told(
    cert_pem: Seq<u8>,
    key_pem: Seq<u8>,
    provider: CryptoProvider,
    chain: Seq<Seq<u8>>,
    e: Seq<char>,
)
    ensures
        config::pem_certificates(cert_pem) == Err::<Seq<Seq<u8>>, _>(e) ==> pem_pair_error(
            cert_pem,
            key_pem,
            provider,
        ) == Some("cert parse: "@ + e),
        config::pem_certificates(cert_pem) == Ok::<_, Seq<char>>(chain) && chain.len() == 0
            ==> pem_pair_error(cert_pem, key_pem, provider) == Some("no certs"@),
        config::pem_certificates(cert_pem) == Ok::<_, Seq<char>>(chain) && chain.len() > 0
            && config::pem_private_key(key_pem) == Err::<Option<(config::KeyKind, Seq<u8>)>, _>(e)
            ==> pem_pair_error(cert_pem, key_pem, provider) == Some("key parse: "@ + e),
        config::pem_certificates(cert_pem) == Ok::<_, Seq<char>>(chain) && chain.len() > 0
            && config::pem_private_key(key_pem) == Ok::<Option<(config::KeyKind, Seq<u8>)>, Seq<char>>(None)
            ==> pem_pair_error(cert_pem, key_pem, provider) == Some("no key"@),
        config::pem_certificates(cert_pem) == Ok::<_, Seq<char>>(chain) && chain.len() > 0
            && config::pem_private_key(key_pem) is Ok && config::pem_private_key(key_pem)->Ok_0
            is Some ==> {
            let key = config::pem_private_key(key_pem)->Ok_0->0;
            &&& config::pair_error(chain, key.0, key.1, provider) matches Some(why)
                ==> pem_pair_error(cert_pem, key_pem, provider) == Some(why.text())
            &&& config::pair_error(chain, key.0, key.1, provider) is None && not_after(chain[0])
                is Err ==> pem_pair_error(cert_pem, key_pem, provider) == Some(
                "x509 parse failed"@,
            )
        },
{
}

/// An installation that goes well writes both files, keeps both old ones, and
/// only then replaces the one and the other and reloads.
pub proof fn installation_goes_in_order(v: InstallView)
    ensures
        ({
            let next = |step: InstallStep| (InstallView { step, ..v }).after(
                StepOutcomeView::Done,
            ).step;
            &&& next(InstallStep::WriteCert) is WriteKey
            &&& next(InstallStep::WriteKey) is KeepCert
            &&& next(InstallStep::KeepCert) is KeepKey
            &&& next(InstallStep::KeepKey) is RenameCert
            &&& next(InstallStep::RenameCert) is RenameKey
            &&& next(InstallStep::RenameKey) is Reload
            &&& next(InstallStep::Reload) is Installed
        }),
        InstallView::fresh().step is WriteCert,
{
}

/// What the files of an installation hold, and which pair the server has taken
/// up.
pub struct Places {
    pub cert: Option<Seq<u8>>,
    pub key: Option<Seq<u8>>,
    pub cert_tmp: Option<Seq<u8>>,
    pub key_tmp: Option<Seq<u8>>,
    pub cert_kept: Option<Seq<u8>>,
    pub key_kept: Option<Seq<u8>>,
    pub live: (Option<Seq<u8>>, Option<Seq<u8>>),
}

/// What a step that went so may have made of the places. A file takes a place,
/// or leaves it, as a whole or not at all; one that was being written may hold
/// anything where that failed.
pub open spec fn performed(
    before: Places,
    step: InstallStep,
    outcome: StepOutcomeView,
    new: (Seq<u8>, Seq<u8>),
    after: Places,
) -> bool {
    match (step, outcome) {
        (InstallStep::WriteCert, StepOutcomeView::Done) => after == (Places {
            cert_tmp: Some(new.0),
            ..before
        }),
        (InstallStep::WriteCert, _) => after == (Places { cert_tmp: after.cert_tmp, ..before }),
        (InstallStep::WriteKey, StepOutcomeView::Done) => after == (Places {
            key_tmp: Some(new.1),
            ..before
        }),
        (InstallStep::WriteKey, _) => after == (Places { key_tmp: after.key_tmp, ..before }),
        (InstallStep::KeepCert, StepOutcomeView::Done) => before.cert is Some && after == (Places {
            cert_kept: before.cert,
            ..before
        }),
        (InstallStep::KeepCert, StepOutcomeView::Absent) => before.cert is None && after == before,
        (InstallStep::KeepCert, StepOutcomeView::Failed(_)) => after == (Places {
            cert_kept: after.cert_kept,
            ..before
        }),
        (InstallStep::KeepKey, StepOutcomeView::Done) => before.key is Some && after == (Places {
            key_kept: before.key,
            ..before
        }),
        (InstallStep::KeepKey, StepOutcomeView::Absent) => before.key is None && after == before,
        (InstallStep::KeepKey, StepOutcomeView::Failed(_)) => after == (Places {
            key_kept: after.key_kept,
            ..before
        }),
        (_, StepOutcomeView::Failed(_)) => after == before,
        (InstallStep::RenameCert, _) => after == (Places {
            cert: before.cert_tmp,
            cert_tmp: None,
            ..before
        }),
        (InstallStep::RenameKey, _) => after == (Places {
            key: before.key_tmp,
            key_tmp: None,
            ..before
        }),
        (InstallStep::Reload, _) => after == (Places { live: (before.cert, before.key), ..before }),
        (InstallStep::RestoreKey, _) => after == (Places {
            key: before.key_kept,
            key_kept: None,
            ..before
        }),
        (InstallStep::RemoveKey, _) => after == (Places { key: None, ..before }),
        (InstallStep::RestoreCert, _) => after == (Places {
            cert: before.cert_kept,
            cert_kept: None,
            ..before
        }),
        (InstallStep::RemoveCert, _) => after == (Places { cert: None, ..before }),
        (InstallStep::Installed, _) | (InstallStep::Failed, _) => after == before,
    }
}

/// How far an installation is after its steps went so.
pub open spec fn installed_by(outcomes: Seq<StepOutcomeView>) -> InstallView
    decreases outcomes.len(),
{
    if outcomes.len() == 0 {
        InstallView::fresh()
    } else {
        installed_by(outcomes.drop_last()).after(outcomes.last())
    }
}

/// Whether places, one more than outcomes, are those that an installation of
/// a new pair went through.
pub open spec fn went_through(
    places: Seq<Places>,
    outcomes: Seq<StepOutcomeView>,
    new: (Seq<u8>, Seq<u8>),
) -> bool {
    &&& places.len() == outcomes.len() + 1
    &&& forall|i: int|
        0 <= i < outcomes.len() ==> {
            let step = installed_by(outcomes.take(i)).step;
            &&& step.admits(#[trigger] outcomes[i])
            &&& performed(places[i], step, outcomes[i], new, places[i + 1])
        }
}

/// What an installation keeps to at each of its steps.
spec fn keeps_to(
    state: InstallView,
    start: Places,
    now: Places,
    new: (Seq<u8>, Seq<u8>),
) -> bool {
    let cert_kept = if state.had_cert {
        start.cert is Some && now.cert_kept == start.cert
    } else {
        start.cert is None
    };
    let key_kept = if state.had_key {
        start.key is Some && now.key_kept == start.key
    } else {
        start.key is None
    };
    let untouched = now.cert == start.cert && now.key == start.key && !state.unrestored;
    let replaced = now.cert == Some(new.0) && now.key == Some(new.1);
    if state.step is Installed {
        replaced && now.live == (now.cert, now.key)
    } else {
        &&& now.live == start.live
        &&& match state.step {
            InstallStep::WriteCert => untouched,
            InstallStep::WriteKey => untouched && now.cert_tmp == Some(new.0),
            InstallStep::KeepCert => untouched && now.cert_tmp == Some(new.0) && now.key_tmp
                == Some(new.1),
            InstallStep::KeepKey => untouched && now.cert_tmp == Some(new.0) && now.key_tmp == Some(
                new.1,
            ) && cert_kept,
            InstallStep::RenameCert => untouched && now.cert_tmp == Some(new.0) && now.key_tmp
                == Some(new.1) && cert_kept && key_kept,
            InstallStep::RenameKey => now.cert == Some(new.0) && now.key == start.key
                && !state.unrestored && now.key_tmp == Some(new.1) && cert_kept && key_kept,
            InstallStep::Reload => replaced && !state.unrestored && cert_kept && key_kept,
            InstallStep::RestoreKey => state.had_key && cert_kept && key_kept,
            InstallStep::RemoveKey => !state.had_key && cert_kept && key_kept,
            InstallStep::RestoreCert => state.had_cert && cert_kept && (!state.unrestored
                ==> now.key == start.key),
            InstallStep::RemoveCert => !state.had_cert && cert_kept && (!state.unrestored
                ==> now.key == start.key),
            _ => !state.unrestored ==> now.cert == start.cert && now.key == start.key,
        }
    }
}

proof fn step_keeps_to(
    state: InstallView,
    outcome: StepOutcomeView,
    start: Places,
    before: Places,
    after: Places,
    new: (Seq<u8>, Seq<u8>),
)
    requires
        keeps_to(state, start, before, new),
        state.step.admits(outcome),
        performed(before, state.step, outcome, new, after),
    ensures
        keeps_to(state.after(outcome), start, after, new),
{
}

proof fn kept_to(places: Seq<Places>, outcomes: Seq<StepOutcomeView>, new: (Seq<u8>, Seq<u8>))
    requires
        went_through(places, outcomes, new),
    ensures
        keeps_to(installed_by(outcomes), places[0], places.last(), new),
    decreases outcomes.len(),
{
    if outcomes.len() > 0 {
        let n = outcomes.len() - 1;
        let fewer = outcomes.drop_last();
        assert(outcomes.take(n) =~= fewer);
        assert forall|i: int| 0 <= i < fewer.len() implies ({
            let step = installed_by(fewer.take(i)).step;
            &&& step.admits(#[trigger] fewer[i])
            &&& performed(places.drop_last()[i], step, fewer[i], new, places.drop_last()[i + 1])
        }) by {
            assert(fewer.take(i) =~= outcomes.take(i));
            assert(fewer[i] == outcomes[i]);
        }
        kept_to(places.drop_last(), fewer, new);
        assert(outcomes[n] == outcomes.last());
        step_keeps_to(
            installed_by(fewer),
            outcomes.last(),
            places[0],
            places[n],
            places.last(),
            new,
        );
    }
}

/// A certificate and its key are installed together or not at all. However the
/// steps go: once the installation has ended well, both places hold the new
/// pair and the server has taken it up; once it has failed, and unless a step
/// that puts something back failed too, both places hold what they held before.
/// Until it has ended well, the server keeps the pair that it had.
pub proof fn both_or_neither(
    places: Seq<Places>,
    outcomes: Seq<StepOutcomeView>,
    new: (Seq<u8>, Seq<u8>),
)
    requires
        went_through(places, outcomes, new),
    ensures
        ({
            let end = installed_by(outcomes);
            let first = places[0];
            let last = places.last();
            &&& end.step is Installed ==> last.cert == Some(new.0) && last.key == Some(new.1)
                && last.live == (Some(new.0), Some(new.1))
            &&& end.step is Failed && !end.unrestored ==> last.cert == first.cert && last.key
                == first.key
            &&& !(end.step is Installed) ==> last.live == first.live
        }),
{
    kept_to(places, outcomes, new);
}

/// Only a step that puts something back, and fails, leaves an installation
/// unrestored.
pub proof fn unrestored_only_by_failure(outcomes: Seq<StepOutcomeView>)
    requires
        forall|i: int|
            0 <= i < outcomes.len() && installed_by(outcomes.take(i)).step.restores()
                ==> !(#[trigger] outcomes[i] is Failed),
    ensures
        !installed_by(outcomes).unrestored,
    decreases outcomes.len(),
{
    if outcomes.len() > 0 {
        let fewer = outcomes.drop_last();
        assert(outcomes.take(outcomes.len() - 1) =~= fewer);
        assert forall|i: int|
            0 <= i < fewer.len() && installed_by(fewer.take(i)).step.restores() implies !(
        #[trigger] fewer[i] is Failed) by {
            assert(fewer.take(i) =~= outcomes.take(i));
            assert(fewer[i] == outcomes[i]);
        }
        unrestored_only_by_failure(fewer);
        assert(outcomes[outcomes.len() - 1] == outcomes.last());
    }
}

/// The most steps that can lead to one.
spec fn rank(step: InstallStep) -> nat {
    match step {
        InstallStep::WriteCert => 0,
        InstallStep::WriteKey => 1,
        InstallStep::KeepCert => 2,
        InstallStep::KeepKey => 3,
        InstallStep::RenameCert => 4,
        InstallStep::RenameKey => 5,
        InstallStep::Reload => 6,
        InstallStep::RestoreKey | InstallStep::RemoveKey => 7,
        InstallStep::RestoreCert | InstallStep::RemoveCert => 8,
        InstallStep::Installed | InstallStep::Failed => 9,
    }
}

proof fn ranks_rise(outcomes: Seq<StepOutcomeView>)
    ensures
        rank(installed_by(outcomes).step) >= outcomes.len() || installed_by(outcomes).step.over(),
    decreases outcomes.len(),
{
    if outcomes.len() > 0 {
        ranks_rise(outcomes.drop_last());
    }
}

/// Every installation ends, after nine steps at the latest.
pub proof fn installation_ends(outcomes: Seq<StepOutcomeView>)
    requires
        outcomes.len() >= 9,
    ensures
        installed_by(outcomes).step.over(),
{
    ranks_rise(outcomes);
}

} // verus!
