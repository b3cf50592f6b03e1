//! One server process, from its arguments to its end.

use vstd::prelude::*;
use crate::cli::{Security, ServerConfig};
use crate::lifespan;
use crate::lifespan::{LifespanError, LifespanMode};
use crate::server::ServeConfig;
use crate::text;
use crate::text::{cat, parse_usize, split_on, str_eq, to_decimal, trim};

verus! {

/// What the environment says, variable by variable.
#[derive(Debug)]
pub struct Environment {
    /// `RUSTWASGI_ACME_DOMAINS`
    pub acme_domains: Option<String>,
    /// `RUSTWASGI_TLS_CERT`
    pub tls_cert: Option<String>,
    /// `RUSTWASGI_TLS_KEY`
    pub tls_key: Option<String>,
    /// `RUSTWASGI_REDIRECT_HTTP_TO_HTTPS`
    pub redirect: Option<String>,
    /// `RUSTWASGI_ACME_DIRECTORY`
    pub acme_directory: Option<String>,
    /// `RUSTWASGI_ACME_EMAIL`
    pub acme_email: Option<String>,
    /// `RUSTWASGI_ACME_DIR`
    pub acme_dir: Option<String>,
}

/// The texts of a list, trimmed, without the empty ones.
pub open spec fn trimmed_words(pieces: Seq<Seq<char>>) -> Seq<Seq<char>>
    decreases pieces.len(),
{
    if pieces.len() == 0 {
        Seq::empty()
    } else {
        let rest = trimmed_words(pieces.drop_last());
        let word = text::trimmed(pieces.last());
        if word.len() > 0 {
            rest.push(word)
        } else {
            rest
        }
    }
}

/// The texts between commas, trimmed, without the empty ones.
pub fn split_list(s: &str) -> (r: Vec<String>)
    ensures
        text::texts(r@) == trimmed_words(text::split(s@, ',')),
{
    let pieces = split_on(s, ',');
    let ghost all = text::split(s@, ',');
    let mut out: Vec<String> = Vec::new();
    let mut i: usize = 0;
    proof {
        assert(text::texts(out@) =~= Seq::empty());
    }
    while i < pieces.len()
        invariant
            i <= pieces@.len(),
            text::texts(pieces@) == all,
            text::texts(out@) == trimmed_words(all.take(i as int)),
        decreases pieces@.len() - i,
    {
        let ghost before = out@;
        proof {
            assert(all[i as int] == pieces@[i as int]@);
            assert(all.take(i + 1).drop_last() =~= all.take(i as int));
            assert(all.take(i + 1).last() == pieces@[i as int]@);
        }
        let word = trim(pieces[i].as_str());
        if !word.as_str().is_empty() {
            let ghost w = word@;
            out.push(word);
            proof {
                assert(text::texts(out@) =~= text::texts(before).push(w));
            }
        }
        i += 1;
    }
    proof {
        assert(pieces@.len() == all.len());
        assert(all.take(i as int) =~= all);
    }
    out
}

/// No text of such a list is empty.
pub proof fn words_are_filled(pieces: Seq<Seq<char>>)
    ensures
        forall|i: int|
            0 <= i < trimmed_words(pieces).len() ==> (#[trigger] trimmed_words(pieces)[i]).len()
                > 0,
    decreases pieces.len(),
{
    if pieces.len() > 0 {
        let rest = trimmed_words(pieces.drop_last());
        let all = trimmed_words(pieces);
        words_are_filled(pieces.drop_last());
        assert forall|i: int| 0 <= i < all.len() implies (#[trigger] all[i]).len() > 0 by {
            if i < rest.len() {
                assert(all[i] == rest[i]);
            }
        }
    }
}

/// The first of two texts that is there.
pub open spec fn either(a: Option<String>, b: Option<String>) -> Option<String> {
    match a {
        Some(s) => Some(s),
        None => b,
    }
}

fn or_else(a: Option<String>, b: Option<String>) -> (r: Option<String>)
    ensures
        r == either(a, b),
{
    match a {
        Some(s) => Some(s),
        None => b,
    }
}

/// A text, unless it is empty.
pub open spec fn unless_empty(s: Option<String>) -> Option<String> {
    match s {
        Some(t) => if t@.len() > 0 {
            Some(t)
        } else {
            None
        },
        None => None,
    }
}

fn filled(s: Option<String>) -> (r: Option<String>)
    ensures
        r == unless_empty(s),
{
    match s {
        Some(t) => if t.as_str().is_empty() {
            None
        } else {
            Some(t)
        },
        None => None,
    }
}

/// An argument counts more than the environment, which counts where there is no
/// argument; an empty variable is none.
pub proof fn arguments_come_first(a: Option<String>, b: Option<String>, t: String)
    ensures
        a is Some ==> either(a, b) == a,
        a is None ==> either(a, b) == b,
        unless_empty(Some(t)) == if t@.len() == 0 {
            None
        } else {
            Some(t)
        },
        unless_empty(None) is None,
{
}

/// One more piece between commas adds its trimmed text, unless that is empty;
/// nothing is dropped, merged or moved.
pub proof fn words_come_one_by_one(pieces: Seq<Seq<char>>, piece: Seq<char>)
    ensures
        text::trimmed(piece).len() > 0 ==> trimmed_words(pieces.push(piece)) == trimmed_words(
            pieces,
        ).push(text::trimmed(piece)),
        text::trimmed(piece).len() == 0 ==> trimmed_words(pieces.push(piece)) == trimmed_words(
            pieces,
        ),
        trimmed_words(Seq::empty()).len() == 0,
{
    assert(pieces.push(piece).drop_last() =~= pieces);
}

/// How a server is secured, by its arguments and by the environment: an
/// argument counts more. A certificate or a key that the environment leaves
/// empty is none.
pub fn resolve_security(args: Security, env: Environment) -> (r: Security)
    ensures
        r.tls_cert == either(args.tls_cert, unless_empty(env.tls_cert)),
        r.tls_key == either(args.tls_key, unless_empty(env.tls_key)),
        r.redirect_http_to_https == (args.redirect_http_to_https || (env.redirect matches Some(v)
            && v@ == "1"@)),
        r.acme_directory == either(args.acme_directory, env.acme_directory),
        r.acme_email == either(args.acme_email, env.acme_email),
        r.acme_dir == either(args.acme_dir, env.acme_dir),
        args.acme_domains@.len() > 0 ==> r.acme_domains == args.acme_domains,
        args.acme_domains@.len() == 0 ==> text::texts(r.acme_domains@) == match env.acme_domains {
            Some(s) => trimmed_words(text::split(s@, ',')),
            None => Seq::empty(),
        },
{
    let acme_domains = if args.acme_domains.len() > 0 {
        args.acme_domains
    } else {
        match &env.acme_domains {
            Some(s) => split_list(s.as_str()),
            None => {
                let none: Vec<String> = Vec::new();
                assert(text::texts(none@) =~= Seq::empty());
                none
            },
        }
    };
    let redirect = match &env.redirect {
        Some(v) => str_eq(v.as_str(), "1"),
        None => false,
    };
    Security {
        tls_cert: or_else(args.tls_cert, filled(env.tls_cert)),
        tls_key: or_else(args.tls_key, filled(env.tls_key)),
        redirect_http_to_https: args.redirect_http_to_https || redirect,
        acme_directory: or_else(args.acme_directory, env.acme_directory),
        acme_email: or_else(args.acme_email, env.acme_email),
        acme_domains,
        acme_dir: or_else(args.acme_dir, env.acme_dir),
    }
}

/// The configuration of a stand-alone server.
pub fn standalone_config(
    app: &str,
    host: &str,
    port: u16,
    workers: usize,
    log_level: &str,
    root_path: &str,
    lifespan: &str,
    access_log: bool,
    security: Security,
) -> (r: ServerConfig)
    ensures
        r.app_spec@ == app@,
        r.host@ == host@,
        r.port == port,
        r.workers == workers,
        r.log_level@ == log_level@,
        r.root_path@ == root_path@,
        r.lifespan@ == lifespan@,
        r.access_log == access_log,
        r.security == security,
{
    ServerConfig::new(
        app.to_string(),
        host.to_string(),
        port,
        workers,
        log_level.to_string(),
        root_path.to_string(),
        lifespan.to_string(),
        access_log,
    ).secured(security)
}

/// The configuration of a worker under a supervisor: it binds nothing itself
/// and is the only worker of its process.
pub fn worker_config(
    app_spec: &str,
    root_path: &str,
    lifespan: &str,
    access_log: bool,
    security: Security,
) -> (r: ServerConfig)
    ensures
        r.app_spec@ == app_spec@,
        r.host@.len() == 0,
        r.port == 0,
        r.workers == 1,
        r.log_level@ == "info"@,
        r.root_path@ == root_path@,
        r.lifespan@ == lifespan@,
        r.access_log == access_log,
        r.security == security,
{
    ServerConfig::new(
        app_spec.to_string(),
        String::new(),
        0,
        1,
        "info".to_string(),
        root_path.to_string(),
        lifespan.to_string(),
        access_log,
    ).secured(security)
}

/// The warning of a stand-alone server that was asked for several workers.
pub fn workers_warning(workers: usize) -> (r: Option<String>)
    ensures
        r is Some <==> workers > 1,
        r matches Some(s) ==> s@ == "workers="@ + text::decimal(workers as nat)
            + " requested but standalone mode runs a single worker; use Gunicorn (rustwasgi.gunicorn.RustWASGIWorker) for multi-worker"@,
{
    if workers > 1 {
        let head = cat("workers=", to_decimal(workers as u64).as_str());
        Some(
            cat(
                head.as_str(),
                " requested but standalone mode runs a single worker; use Gunicorn (rustwasgi.gunicorn.RustWASGIWorker) for multi-worker",
            ),
        )
    } else {
        None
    }
}

/// The number of threads of a worker's runtime: what `RUSTWASGI_THREADS` says,
/// where that is a positive number; else one per processor, or four where
/// their number is not known.
pub fn tokio_worker_threads(variable: Option<&str>, processors: Option<usize>) -> (r: usize)
    ensures
        ({
            let asked = match variable {
                Some(v) => text::parsed_number(v@, usize::MAX as nat),
                None => None,
            };
            match asked {
                Some(n) => if n >= 1 {
                    r == n
                } else {
                    r == processors.unwrap_or(4)
                },
                None => r == processors.unwrap_or(4),
            }
        }),
{
    let fallback: usize = match processors {
        Some(n) => n,
        None => 4,
    };
    match variable {
        Some(v) => match parse_usize(v) {
            Some(n) => if n >= 1 {
                n
            } else {
                fallback
            },
            None => fallback,
        },
        None => fallback,
    }
}

/// The time that a stand-alone server gives requests to finish.
pub const STANDALONE_GRACEFUL_TIMEOUT: u64 = 30;

/// The interval of the heartbeat of a stand-alone server.
pub const STANDALONE_HEARTBEAT: u64 = 3600;

/// What is loaded for TLS.
#[derive(Debug)]
pub enum TlsPlan {
    /// Nothing.
    Plain,
    /// A certificate and its key, by their paths.
    Load { cert: String, key: String },
}

/// What is loaded for TLS: a certificate and its key, or neither. One without
/// the other is an error.
pub fn tls_plan(security: &Security) -> (r: Result<TlsPlan, &'static str>)
    ensures
        match (security.tls_cert, security.tls_key) {
            (Some(c), Some(k)) => r matches Ok(TlsPlan::Load { cert, key }) && cert@ == c@ && key@
                == k@,
            (None, None) => r matches Ok(TlsPlan::Plain),
            _ => r matches Err(s) && s@ == "both --tls-cert and --tls-key must be provided"@,
        },
{
    match (&security.tls_cert, &security.tls_key) {
        (Some(c), Some(k)) => Ok(TlsPlan::Load { cert: c.clone(), key: k.clone() }),
        (None, None) => Ok(TlsPlan::Plain),
        _ => Err("both --tls-cert and --tls-key must be provided"),
    }
}

/// The larger of a number and one.
pub open spec fn at_least_one(n: u64) -> u64 {
    if n < 1 {
        1
    } else {
        n
    }
}

/// A time of zero becomes one second; any other stays.
pub proof fn zero_becomes_one(n: u64)
    ensures
        at_least_one(0) == 1,
        n > 0 ==> at_least_one(n) == n,
{
}

/// What a worker goes by. Times of zero become one second.
pub fn serve_config(
    config: &ServerConfig,
    app_spec: String,
    max_requests: usize,
    graceful_timeout: u64,
    heartbeat_interval: u64,
    keep_alive: u64,
) -> (r: ServeConfig)
    ensures
        r.app_spec == app_spec,
        r.root_path@ == config.root_path@,
        r.max_requests == max_requests,
        r.graceful_timeout == at_least_one(graceful_timeout),
        r.heartbeat_interval == at_least_one(heartbeat_interval),
        r.access_log == config.access_log,
        r.keep_alive_secs == keep_alive,
        r.redirect_http_to_https == config.security.redirect_http_to_https,
{
    ServeConfig {
        app_spec,
        root_path: config.root_path.clone(),
        max_requests,
        graceful_timeout: if graceful_timeout < 1 {
            1
        } else {
            graceful_timeout
        },
        heartbeat_interval: if heartbeat_interval < 1 {
            1
        } else {
            heartbeat_interval
        },
        access_log: config.access_log,
        keep_alive_secs: keep_alive,
        redirect_http_to_https: config.security.redirect_http_to_https,
    }
}

/// Whether certificates are renewed in the background.
#[derive(Debug, Clone, Copy, PartialEq, Eq, Structural)]
pub enum AcmeStart {
    Off,
    /// Asked for, but there is no certificate to renew: a warning is printed.
    NoTls,
    Start,
}

/// Whether certificates are renewed in the background: where that is asked
/// for and TLS is on.
pub fn acme_start(config: &ServerConfig, has_tls: bool) -> (r: AcmeStart)
    ensures
        r == if !config.acme_enabled() {
            AcmeStart::Off
        } else if !has_tls {
            AcmeStart::NoTls
        } else {
            AcmeStart::Start
        },
{
    if !config.is_acme_enabled() {
        AcmeStart::Off
    } else if !has_tls {
        AcmeStart::NoTls
    } else {
        AcmeStart::Start
    }
}

/// Where a process stands.
#[derive(Debug, Clone, Copy, PartialEq, Eq, Structural)]
pub enum Stage {
    /// The first lifespan handshake.
    Startup,
    /// Requests are served.
    Serving,
    /// The second lifespan handshake.
    Shutdown,
    /// Leftover tasks are cancelled.
    Cleanup,
    /// The loop is stopped and its thread is joined.
    Stopping,
    Done,
    /// The process ends with an error.
    Failed,
}

/// What happened to a process.
#[derive(Debug, Clone, Copy, PartialEq, Eq, Structural)]
pub enum Event {
    /// The first handshake completed, with a state or without.
    Started { has_state: bool },
    /// The application does not take part in the lifespan.
    Unsupported,
    /// The application failed to start.
    StartFailed,
    /// Serving ended, well or not.
    Served { ok: bool },
    /// The second handshake is over.
    ShutDown,
    /// Leftover tasks are gone, or were given up.
    Cleaned,
    /// The loop's thread is gone.
    Stopped,
}

/// One server process.
#[derive(Debug, Clone, Copy, PartialEq, Eq, Structural)]
pub struct Process {
    pub stage: Stage,
    pub mode: LifespanMode,
    /// The first handshake completed, so there is a second one.
    pub managed: bool,
    /// The application handed over a state for its scopes.
    pub has_state: bool,
}

impl Process {
    /// A process at its beginning: without a lifespan it serves at once.
    pub open spec fn begun(mode: LifespanMode) -> Process {
        Process {
            stage: if mode is Off {
                Stage::Serving
            } else {
                Stage::Startup
            },
            mode,
            managed: false,
            has_state: false,
        }
    }

    /// Whether an event can happen in this state.
    pub open spec fn expects(self, event: Event) -> bool {
        match event {
            Event::Started { .. } | Event::Unsupported | Event::StartFailed => self.stage
                is Startup,
            Event::Served { .. } => self.stage is Serving,
            Event::ShutDown => self.stage is Shutdown,
            Event::Cleaned => self.stage is Cleanup,
            Event::Stopped => self.stage is Stopping,
        }
    }

    /// The state after an event.
    pub open spec fn next(self, event: Event) -> Process {
        match event {
            Event::Started { has_state } => Process {
                stage: Stage::Serving,
                managed: true,
                has_state,
                ..self
            },
            Event::Unsupported => Process {
                stage: if self.mode is Auto {
                    Stage::Serving
                } else {
                    Stage::Failed
                },
                ..self
            },
            Event::StartFailed => Process { stage: Stage::Failed, ..self },
            Event::Served { ok } => Process {
                stage: if !ok {
                    Stage::Failed
                } else if self.managed {
                    Stage::Shutdown
                } else {
                    Stage::Cleanup
                },
                ..self
            },
            Event::ShutDown => Process { stage: Stage::Cleanup, managed: false, ..self },
            Event::Cleaned => Process { stage: Stage::Stopping, ..self },
            Event::Stopped => Process { stage: Stage::Done, ..self },
        }
    }

    /// A process in a lifespan mode.
    pub fn new(mode: LifespanMode) -> (r: Process)
        ensures
            r == Process::begun(mode),
    {
        let stage = if let LifespanMode::Off = mode {
            Stage::Serving
        } else {
            Stage::Startup
        };
        Process { stage, mode, managed: false, has_state: false }
    }

    /// Takes one event; the stage tells what is to be done next.
    pub fn step(&mut self, event: Event)
        requires
            old(self).expects(event),
        ensures
            *final(self) == old(self).next(event),
    {
        match event {
            Event::Started { has_state } => {
                self.stage = Stage::Serving;
                self.managed = true;
                self.has_state = has_state;
            },
            Event::Unsupported => {
                self.stage = if let LifespanMode::Auto = self.mode {
                    Stage::Serving
                } else {
                    Stage::Failed
                };
            },
            Event::StartFailed => {
                self.stage = Stage::Failed;
            },
            Event::Served { ok } => {
                self.stage = if !ok {
                    Stage::Failed
                } else if self.managed {
                    Stage::Shutdown
                } else {
                    Stage::Cleanup
                };
            },
            Event::ShutDown => {
                self.stage = Stage::Cleanup;
                self.managed = false;
            },
            Event::Cleaned => {
                self.stage = Stage::Stopping;
            },
            Event::Stopped => {
                self.stage = Stage::Done;
            },
        }
    }

    /// Takes the outcome of the first handshake. The result is the line to
    /// print where the process goes on, or the text of its error.
    pub fn startup_over(&mut self, outcome: Result<bool, LifespanError>) -> (r: Result<
        String,
        String,
    >)
        requires
            old(self).stage is Startup,
        ensures
            match outcome {
                Ok(has_state) => {
                    &&& *final(self) == old(self).next(Event::Started { has_state })
                    &&& r matches Ok(line) && line@ == "INFO rustwasgi: lifespan startup complete"@
                },
                Err(e) => if lifespan::is_fatal(old(self).mode, e@) {
                    &&& final(self).stage is Failed
                    &&& r matches Err(text) && text@ == "lifespan startup failed: "@ + e@.text()
                } else {
                    &&& *final(self) == old(self).next(Event::Unsupported)
                    &&& final(self).stage is Serving
                    &&& r matches Ok(line) && line@
                        == "INFO rustwasgi: lifespan unsupported, continuing ("@
                        + e@->Unsupported_0 + ")"@
                },
            },
    {
        match outcome {
            Ok(has_state) => {
                self.step(Event::Started { has_state });
                Ok("INFO rustwasgi: lifespan startup complete".to_string())
            },
            Err(e) => {
                if let LifespanError::Unsupported(msg) = &e {
                    if let LifespanMode::Auto = self.mode {
                        self.step(Event::Unsupported);
                        let head = cat(
                            "INFO rustwasgi: lifespan unsupported, continuing (",
                            msg.as_str(),
                        );
                        return Ok(cat(head.as_str(), ")"));
                    }
                }
                self.step(Event::StartFailed);
                Err(cat("lifespan startup failed: ", e.message().as_str()))
            },
        }
    }
}

/// Whether a series of events can happen to a process.
pub open spec fn possible(p: Process, events: Seq<Event>) -> bool
    decreases events.len(),
{
    events.len() == 0 || {
        &&& possible(p, events.drop_last())
        &&& after(p, events.drop_last()).expects(events.last())
    }
}

/// The state of a process after a series of events.
pub open spec fn after(p: Process, events: Seq<Event>) -> Process
    decreases events.len(),
{
    if events.len() == 0 {
        p
    } else {
        after(p, events.drop_last()).next(events.last())
    }
}

/// Whether the first handshake has completed in a series of events.
pub open spec fn started(events: Seq<Event>) -> bool {
    exists|i: int| 0 <= i < events.len() && #[trigger] events[i] is Started
}

proof fn started_more(events: Seq<Event>)
    requires
        events.len() > 0,
    ensures
        started(events) <==> started(events.drop_last()) || events.last() is Started,
{
    let before = events.drop_last();
    if started(before) {
        let i = choose|i: int| 0 <= i < before.len() && #[trigger] before[i] is Started;
        assert(events[i] is Started);
    }
    if events.last() is Started {
        assert(events[events.len() - 1] is Started);
    }
    if started(events) && !(events.last() is Started) {
        let i = choose|i: int| 0 <= i < events.len() && #[trigger] events[i] is Started;
        assert(before[i] is Started);
    }
}

/// Whether the application declined to take part in the lifespan.
pub open spec fn declined(events: Seq<Event>) -> bool {
    exists|i: int| 0 <= i < events.len() && #[trigger] events[i] is Unsupported
}

/// Before a process serves, the first handshake has completed in mode `on`;
/// in mode `auto` it has completed, or the application does not take part; in
/// mode `off` there was none.
pub proof fn serves_after_startup(mode: LifespanMode, events: Seq<Event>)
    requires
        possible(Process::begun(mode), events),
        after(Process::begun(mode), events).stage is Serving,
    ensures
        mode is On ==> started(events),
        mode is Auto ==> started(events) || declined(events),
        mode is Off ==> !started(events),
{
    always_sound(mode, events);
}

/// A process that is done went through the second handshake if and only if
/// the first one completed.
pub proof fn shutdown_pairs_with_startup(mode: LifespanMode, events: Seq<Event>)
    requires
        possible(Process::begun(mode), events),
        after(Process::begun(mode), events).stage is Done,
    ensures
        started(events) <==> exists|i: int|
            0 <= i < events.len() && #[trigger] events[i] is ShutDown,
{
    always_sound(mode, events);
}

/// The second handshake comes after the first one, and after serving ended
/// well.
pub proof fn shutdown_comes_after_serving(mode: LifespanMode, events: Seq<Event>)
    requires
        possible(Process::begun(mode), events),
        events.len() > 0,
        events.last() is ShutDown,
    ensures
        started(events.drop_last()),
        exists|i: int|
            0 <= i < events.len() - 1 && #[trigger] events[i] == (Event::Served { ok: true }),
{
    always_sound(mode, events.drop_last());
    let before = events.drop_last();
    let i = choose|i: int|
        0 <= i < before.len() && #[trigger] before[i] == (Event::Served { ok: true });
    assert(events[i] == (Event::Served { ok: true }));
}

/// The loop is stopped last: after serving ended well, after the second
/// handshake if there is one, and after the cleanup.
pub proof fn loop_stops_last(mode: LifespanMode, events: Seq<Event>)
    requires
        possible(Process::begun(mode), events),
        events.len() > 0,
        events.last() is Stopped,
    ensures
        events.len() >= 3,
        events[events.len() - 2] is Cleaned,
        exists|i: int| 0 <= i < events.len() - 2 && #[trigger] events[i] == (Event::Served {
            ok: true,
        }),
{
    always_sound(mode, events.drop_last());
}

/// A process that failed does nothing more: it neither serves nor shuts down.
pub proof fn failure_is_the_end(p: Process, event: Event)
    requires
        p.stage is Failed || p.stage is Done,
    ensures
        !p.expects(event),
{
}

/// What follows each event. A handshake that completed is kept in mind with
/// its state; one that was declined lets a process go on in mode `auto` only;
/// one that failed ends it in every mode. Serving leads to the second handshake
/// if the first one completed.
pub proof fn stages_follow_the_events(p: Process, event: Event)
    requires
        p.expects(event),
    ensures
        ({
            let now = p.next(event);
            &&& now.mode == p.mode
            &&& now.stage is Serving <==> event is Started || event is Unsupported && p.mode is Auto
            &&& now.stage is Failed <==> event is StartFailed || event == (Event::Served {
                ok: false,
            }) || event is Unsupported && !(p.mode is Auto)
            &&& now.stage is Shutdown <==> event == (Event::Served { ok: true }) && p.managed
            &&& now.stage is Cleanup <==> event is ShutDown || event == (Event::Served {
                ok: true,
            }) && !p.managed
            &&& now.stage is Stopping <==> event is Cleaned
            &&& now.stage is Done <==> event is Stopped
            &&& event matches Event::Started { has_state } ==> now.managed && now.has_state
                == has_state
            &&& !(event is Started) ==> now.has_state == p.has_state
            &&& !(event is Started) && !(event is ShutDown) ==> now.managed == p.managed
        }),
{
}

/// A process begins with the first handshake, unless there is to be none; it
/// has no state before the application handed one over.
pub proof fn begins_with_the_handshake(mode: LifespanMode)
    ensures
        Process::begun(mode).stage is Serving <==> mode is Off,
        Process::begun(mode).stage is Startup <==> !(mode is Off),
        !Process::begun(mode).managed && !Process::begun(mode).has_state,
        Process::begun(mode).mode == mode,
{
}

/// Whether the lifespan is managed changes twice: it is from the moment that the
/// application has started, and no longer once it was shut down. The mode never
/// changes.
pub proof fn managed_from_start_to_shutdown(p: Process, event: Event)
    ensures
        p.next(event).managed <==> event is Started || p.managed && !(event is ShutDown),
        p.next(event).mode == p.mode,
{
}

/// In every stage that is not the last, the event that a process waits for is
/// taken.
pub proof fn process_goes_on(p: Process, flag: bool)
    ensures
        p.stage is Startup ==> p.expects(Event::Started { has_state: flag }) && p.expects(
            Event::Unsupported,
        ) && p.expects(Event::StartFailed),
        p.stage is Serving ==> p.expects(Event::Served { ok: flag }),
        p.stage is Shutdown ==> p.expects(Event::ShutDown),
        p.stage is Cleanup ==> p.expects(Event::Cleaned),
        p.stage is Stopping ==> p.expects(Event::Stopped),
{
}

spec fn shut(events: Seq<Event>) -> bool {
    exists|i: int| 0 <= i < events.len() && #[trigger] events[i] is ShutDown
}

spec fn served(events: Seq<Event>) -> bool {
    exists|i: int| 0 <= i < events.len() && #[trigger] events[i] == (Event::Served { ok: true })
}

spec fn sound(mode: LifespanMode, events: Seq<Event>) -> bool {
    let now = after(Process::begun(mode), events);
    let late = now.stage is Cleanup || now.stage is Stopping || now.stage is Done;
    &&& now.mode == mode
    &&& mode is Off ==> !started(events)
    &&& now.stage is Serving && mode is On ==> started(events)
    &&& now.stage is Serving && mode is Auto ==> started(events) || declined(events)
    &&& now.stage is Startup ==> !started(events)
    &&& now.stage is Startup || now.stage is Serving ==> !shut(events) && !served(events)
    &&& now.stage is Serving ==> now.managed == started(events)
    &&& now.stage is Shutdown ==> started(events) && !shut(events) && served(events)
    &&& late ==> (shut(events) <==> started(events)) && served(events)
    &&& now.stage is Stopping ==> events.len() > 0 && events.last() is Cleaned
    &&& now.stage is Cleanup ==> events.len() > 0 && (events.last() is ShutDown
        || events.last() is Served)
}

proof fn seen_more(events: Seq<Event>)
    requires
        events.len() > 0,
    ensures
        shut(events) <==> shut(events.drop_last()) || events.last() is ShutDown,
        declined(events.drop_last()) || events.last() is Unsupported ==> declined(events),
        served(events) <==> served(events.drop_last()) || events.last() == (Event::Served {
            ok: true,
        }),
{
    let before = events.drop_last();
    let done = Event::Served { ok: true };
    if declined(before) {
        let i = choose|i: int| 0 <= i < before.len() && #[trigger] before[i] is Unsupported;
        assert(events[i] is Unsupported);
    }
    if events.last() is Unsupported {
        assert(events[events.len() - 1] is Unsupported);
    }
    if shut(before) {
        let i = choose|i: int| 0 <= i < before.len() && #[trigger] before[i] is ShutDown;
        assert(events[i] is ShutDown);
    }
    if events.last() is ShutDown {
        assert(events[events.len() - 1] is ShutDown);
    }
    if shut(events) && !(events.last() is ShutDown) {
        let i = choose|i: int| 0 <= i < events.len() && #[trigger] events[i] is ShutDown;
        assert(before[i] is ShutDown);
    }
    if served(before) {
        let i = choose|i: int| 0 <= i < before.len() && #[trigger] before[i] == done;
        assert(events[i] == done);
    }
    if events.last() == done {
        assert(events[events.len() - 1] == done);
    }
    if served(events) && events.last() != done {
        let i = choose|i: int| 0 <= i < events.len() && #[trigger] events[i] == done;
        assert(before[i] == done);
    }
}

proof fn always_sound(mode: LifespanMode, events: Seq<Event>)
    requires
        possible(Process::begun(mode), events),
    ensures
        sound(mode, events),
    decreases events.len(),
{
    if events.len() > 0 {
        always_sound(mode, events.drop_last());
        started_more(events);
        seen_more(events);
    }
}

/// Where the cancelling of leftover tasks stands.
#[derive(Debug, Clone, Copy, PartialEq, Eq, Structural)]
pub enum Sweep {
    /// A coroutine that does nothing is scheduled.
    Barrier,
    /// It is waited for, whatever becomes of it: what was scheduled before is
    /// then a task.
    AwaitBarrier,
    /// The coroutine that cancels all tasks is scheduled.
    Cancel,
    /// It is waited for.
    AwaitCancel,
    Swept,
}

/// How a stage of the cancelling ended.
#[derive(Debug)]
pub enum SweepOutcome {
    Good,
    TimedOut,
    Bad(String),
}

/// The next stage of the cancelling of leftover tasks, or the warning with
/// which it is given up.
pub fn cancel_pending_tasks(stage: Sweep, outcome: SweepOutcome) -> (r: Result<Sweep, String>)
    ensures
        match stage {
            Sweep::Barrier => match outcome {
                SweepOutcome::Bad(e) => r matches Err(w) && w@ == "WARN rustwasgi: loop cleanup: "@
                    + e@,
                _ => r == Ok::<Sweep, String>(Sweep::AwaitBarrier),
            },
            Sweep::AwaitBarrier => r == Ok::<Sweep, String>(Sweep::Cancel),
            Sweep::Cancel => match outcome {
                SweepOutcome::Bad(e) => r matches Err(w) && w@ == "WARN rustwasgi: loop cleanup: "@
                    + e@,
                _ => r == Ok::<Sweep, String>(Sweep::AwaitCancel),
            },
            Sweep::AwaitCancel => match outcome {
                SweepOutcome::Good => r == Ok::<Sweep, String>(Sweep::Swept),
                SweepOutcome::TimedOut => r matches Err(w) && w@
                    == "WARN rustwasgi: loop cleanup: cleanup timed out"@,
                SweepOutcome::Bad(_) => r matches Err(w) && w@
                    == "WARN rustwasgi: loop cleanup: cleanup failed"@,
            },
            Sweep::Swept => r == Ok::<Sweep, String>(Sweep::Swept),
        },
{
    match stage {
        Sweep::Barrier => match outcome {
            SweepOutcome::Bad(e) => Err(cat("WARN rustwasgi: loop cleanup: ", e.as_str())),
            _ => Ok(Sweep::AwaitBarrier),
        },
        Sweep::AwaitBarrier => Ok(Sweep::Cancel),
        Sweep::Cancel => match outcome {
            SweepOutcome::Bad(e) => Err(cat("WARN rustwasgi: loop cleanup: ", e.as_str())),
            _ => Ok(Sweep::AwaitCancel),
        },
        Sweep::AwaitCancel => match outcome {
            SweepOutcome::Good => Ok(Sweep::Swept),
            SweepOutcome::TimedOut => Err(
                "WARN rustwasgi: loop cleanup: cleanup timed out".to_string(),
            ),
            SweepOutcome::Bad(_) => Err(
                "WARN rustwasgi: loop cleanup: cleanup failed".to_string(),
            ),
        },
        Sweep::Swept => Ok(Sweep::Swept),
    }
}

} // verus!
