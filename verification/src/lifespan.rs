//! The lifespan protocol: one handshake with the application before requests
//! are accepted, and one after.

use vstd::prelude::*;
use crate::asgi;
use crate::asgi::{empty_dict, entry, quote, text_value, version_value};
use crate::text;
use crate::text::{cat, contains, str_eq, to_lower};
use crate::value;
use crate::value::{get_item, Term, Value};

verus! {

/// How to handle lifespan.
#[derive(Debug, Clone, Copy, PartialEq, Eq, Structural)]
pub enum LifespanMode {
    Off,
    Auto,
    On,
}

impl LifespanMode {
    /// The mode that a text names, in any case: anything but `off` and `on` is
    /// `auto`.
    pub open spec fn named(s: Seq<char>) -> LifespanMode {
        if text::lower(s) == "off"@ {
            LifespanMode::Off
        } else if text::lower(s) == "on"@ {
            LifespanMode::On
        } else {
            LifespanMode::Auto
        }
    }

    /// The mode that a text names.
    pub fn parse(s: &str) -> (r: LifespanMode)
        ensures
            r == LifespanMode::named(s@),
    {
        let name = to_lower(s);
        if str_eq(name.as_str(), "off") {
            LifespanMode::Off
        } else if str_eq(name.as_str(), "on") {
            LifespanMode::On
        } else {
            LifespanMode::Auto
        }
    }
}

/// Why the first handshake failed.
#[derive(Debug)]
pub enum LifespanError {
    /// The application does not take part. Fatal only in mode `on`.
    Unsupported(String),
    /// The application said that it failed to start. Always fatal.
    Failed(String),
}

/// The content of a [`LifespanError`].
pub enum LifespanErrorView {
    Unsupported(Seq<char>),
    Failed(Seq<char>),
}

impl View for LifespanError {
    type V = LifespanErrorView;

    open spec fn view(&self) -> LifespanErrorView {
        match self {
            LifespanError::Unsupported(m) => LifespanErrorView::Unsupported(m@),
            LifespanError::Failed(m) => LifespanErrorView::Failed(m@),
        }
    }
}

impl LifespanErrorView {
    /// The text of this error.
    pub open spec fn text(self) -> Seq<char> {
        match self {
            LifespanErrorView::Unsupported(m) => "lifespan unsupported: "@ + m,
            LifespanErrorView::Failed(m) => "lifespan startup failed: "@ + m,
        }
    }
}

impl LifespanError {
    /// The text of this error.
    pub fn message(&self) -> (r: String)
        ensures
            r@ == self@.text(),
    {
        match self {
            LifespanError::Unsupported(m) => cat("lifespan unsupported: ", m.as_str()),
            LifespanError::Failed(m) => cat("lifespan startup failed: ", m.as_str()),
        }
    }
}

/// The scope of a lifespan.
pub open spec fn lifespan_scope() -> Term {
    Term::Dict(
        seq![
            ("type"@, Term::Str("lifespan"@)),
            ("asgi"@, asgi::version_term()),
            ("state"@, Term::Dict(Seq::empty())),
        ],
    )
}

/// The scope that the application is called with for its lifespan.
pub fn build_lifespan_scope() -> (r: Value)
    ensures
        r.term() == lifespan_scope(),
{
    let mut v: Vec<(String, Value)> = Vec::new();
    v.push(entry("type", text_value("lifespan")));
    v.push(entry("asgi", version_value()));
    v.push(entry("state", empty_dict()));
    assert(value::fields(v@) =~= lifespan_scope()->Dict_0);
    Value::Dict(v)
}

/// The message that opens a handshake.
#[derive(Debug, Clone, Copy, PartialEq, Eq, Structural)]
pub enum Handshake {
    Startup,
    Shutdown,
}

/// The message that opens a handshake.
pub fn handshake_message(which: Handshake) -> (r: Value)
    ensures
        r.term() == Term::Dict(
            seq![
                (
                    "type"@,
                    Term::Str(
                        match which {
                            Handshake::Startup => "lifespan.startup"@,
                            Handshake::Shutdown => "lifespan.shutdown"@,
                        },
                    ),
                ),
            ],
        ),
{
    let mut v: Vec<(String, Value)> = Vec::new();
    match which {
        Handshake::Startup => {
            v.push(entry("type", text_value("lifespan.startup")));
            assert(value::fields(v@) =~= seq![("type"@, Term::Str("lifespan.startup"@))]);
        },
        Handshake::Shutdown => {
            v.push(entry("type", text_value("lifespan.shutdown")));
            assert(value::fields(v@) =~= seq![("type"@, Term::Str("lifespan.shutdown"@))]);
        },
    }
    Value::Dict(v)
}

/// The text under a key of a message, or another text.
pub open spec fn text_under(message: Term, key: Seq<char>, otherwise: Seq<char>) -> Seq<char> {
    match value::lookup(asgi::entries(message), key) {
        Some(t) => match value::as_text(t) {
            Some(s) => s,
            None => otherwise,
        },
        None => otherwise,
    }
}

fn text_of(message: &Value, key: &str, otherwise: &str) -> (r: String)
    ensures
        r@ == text_under(message.term(), key@, otherwise@),
{
    match message {
        Value::Dict(m) => match get_item(m, key) {
            Some(t) => match t.text() {
                Some(s) => s,
                None => otherwise.to_string(),
            },
            None => otherwise.to_string(),
        },
        _ => otherwise.to_string(),
    }
}

/// What the reply to the first handshake means: whether the application
/// handed over a state, or why it did not start.
pub open spec fn startup_meaning(reply: Term) -> Result<bool, LifespanErrorView> {
    let kind = text_under(reply, "type"@, ""@);
    if kind == "lifespan.startup.complete"@ {
        Ok(value::lookup(asgi::entries(reply), "state"@) is Some)
    } else if kind == "lifespan.startup.failed"@ {
        Err(LifespanErrorView::Failed(text_under(reply, "message"@, "unknown"@)))
    } else {
        Err(LifespanErrorView::Unsupported("unexpected lifespan reply "@ + asgi::quoted(kind)))
    }
}

/// What the reply to the first handshake means: whether the application
/// handed over a state, or why it did not start.
pub fn startup_reply(reply: &Value) -> (r: Result<bool, LifespanError>)
    ensures
        match r {
            Ok(b) => startup_meaning(reply.term()) == Ok::<_, LifespanErrorView>(b),
            Err(e) => startup_meaning(reply.term()) == Err::<bool, _>(e@),
        },
{
    let kind = text_of(reply, "type", "");
    if str_eq(kind.as_str(), "lifespan.startup.complete") {
        match reply {
            Value::Dict(m) => Ok(get_item(m, "state").is_some()),
            _ => Ok(false),
        }
    } else if str_eq(kind.as_str(), "lifespan.startup.failed") {
        Err(LifespanError::Failed(text_of(reply, "message", "unknown")))
    } else {
        let shown = quote(kind.as_str());
        Err(LifespanError::Unsupported(cat("unexpected lifespan reply ", shown.as_str())))
    }
}

/// The line to print for the reply to the second handshake: one where the
/// application said that it failed.
pub fn shutdown_reply(reply: &Value) -> (r: Option<String>)
    ensures
        r is Some <==> text_under(reply.term(), "type"@, ""@) == "lifespan.shutdown.failed"@,
        r matches Some(line) ==> line@ == "ERROR rustwasgi: lifespan.shutdown.failed: "@
            + text_under(reply.term(), "message"@, "unknown"@),
{
    let kind = text_of(reply, "type", "");
    if str_eq(kind.as_str(), "lifespan.shutdown.failed") {
        let message = text_of(reply, "message", "unknown");
        Some(cat("ERROR rustwasgi: lifespan.shutdown.failed: ", message.as_str()))
    } else {
        None
    }
}

/// Whether an exception means that the time was up, by the name of its type.
pub fn is_timeout_error(name: Option<&str>) -> (r: bool)
    ensures
        r == (name matches Some(n) && text::occurs(n@, "Timeout"@)),
{
    match name {
        Some(n) => contains(n, "Timeout"),
        None => false,
    }
}

/// Milliseconds that one look for the reply to the first handshake takes.
pub const REPLY_SLICE_MS: u64 = 500;

/// Nanoseconds that the reply to the first handshake is waited for.
pub const HANDSHAKE_TIMEOUT_NS: u128 = 30_000_000_000;

/// What one look for the reply to the first handshake found.
#[derive(Debug, Clone, Copy, PartialEq, Eq, Structural)]
pub enum Slice {
    /// The reply.
    Reply,
    /// Nothing yet: whether the application has ended, and the nanoseconds
    /// since the first look.
    Nothing { app_done: bool, elapsed_ns: u128 },
    /// An error.
    Failed,
}

/// What follows from a look for the reply.
#[derive(Debug, Clone, Copy)]
pub enum Verdict {
    Take,
    LookAgain,
    /// The look is cancelled and so is the application.
    GiveUp(&'static str),
}

/// What follows from a look for the reply. An application that has ended
/// without a reply is given up at once.
pub fn wait_startup_reply(found: Slice) -> (r: Verdict)
    ensures
        match found {
            Slice::Reply => r is Take,
            Slice::Nothing { app_done, elapsed_ns } => if app_done {
                r matches Verdict::GiveUp(s) && s@
                    == "app exited without a lifespan reply (unsupported)"@
            } else if elapsed_ns >= HANDSHAKE_TIMEOUT_NS {
                r matches Verdict::GiveUp(s) && s@
                    == "lifespan reply timed out (app may not support lifespan)"@
            } else {
                r is LookAgain
            },
            Slice::Failed => r matches Verdict::GiveUp(s) && s@ == "lifespan reply failed"@,
        },
{
    match found {
        Slice::Reply => Verdict::Take,
        Slice::Nothing { app_done, elapsed_ns } => {
            if app_done {
                Verdict::GiveUp("app exited without a lifespan reply (unsupported)")
            } else if elapsed_ns >= HANDSHAKE_TIMEOUT_NS {
                Verdict::GiveUp("lifespan reply timed out (app may not support lifespan)")
            } else {
                Verdict::LookAgain
            }
        },
        Slice::Failed => Verdict::GiveUp("lifespan reply failed"),
    }
}

/// The text of a get from the application's queue that failed.
pub fn queue_get_error(timed_out: bool) -> (r: &'static str)
    ensures
        r@ == if timed_out {
            "lifespan reply timed out (app may not support lifespan)"@
        } else {
            "lifespan reply failed"@
        },
{
    if timed_out {
        "lifespan reply timed out (app may not support lifespan)"
    } else {
        "lifespan reply failed"
    }
}

/// How the use of the application's queues failed.
#[derive(Debug)]
pub enum QueueFailure {
    /// The message could not be built.
    Message(String),
    /// The put or the get could not be made.
    Call(String),
    /// It could not be scheduled.
    Submit(String),
    /// It ended with an error.
    Ended,
}

/// The text of a put that failed.
pub fn queue_put_error(failure: QueueFailure) -> (r: String)
    ensures
        r@ == match failure {
            QueueFailure::Message(e) => "dict: "@ + e@,
            QueueFailure::Call(e) => "queue.put: "@ + e@,
            QueueFailure::Submit(e) => "submit: "@ + e@,
            QueueFailure::Ended => "queue.put failed"@,
        },
{
    match failure {
        QueueFailure::Message(e) => cat("dict: ", e.as_str()),
        QueueFailure::Call(e) => cat("queue.put: ", e.as_str()),
        QueueFailure::Submit(e) => cat("submit: ", e.as_str()),
        QueueFailure::Ended => "queue.put failed".to_string(),
    }
}

/// The text of a get that could not be begun.
pub fn queue_get_refused(failure: QueueFailure) -> (r: String)
    ensures
        r@ == match failure {
            QueueFailure::Call(e) => "queue.get: "@ + e@,
            QueueFailure::Submit(e) => "submit: "@ + e@,
            _ => "lifespan reply failed"@,
        },
{
    match failure {
        QueueFailure::Call(e) => cat("queue.get: ", e.as_str()),
        QueueFailure::Submit(e) => cat("submit: ", e.as_str()),
        _ => "lifespan reply failed".to_string(),
    }
}

/// Where a lifespan stands.
#[derive(Debug, Clone, Copy, PartialEq, Eq, Structural)]
pub enum Stage {
    /// The coroutine that makes the channel is built.
    CreateChannel,
    /// It is scheduled.
    SubmitInit,
    /// The channel is waited for.
    AwaitInit,
    /// The channel is taken apart.
    Unpack,
    /// The scope is built.
    BuildScope,
    /// The application is called.
    CallApp,
    /// It is scheduled.
    SubmitApp,
    /// The first handshake is opened.
    PutStartup,
    /// The reply is waited for.
    AwaitReply,
    /// The application has started.
    Running,
    /// The second handshake is opened.
    PutShutdown,
    /// The reply is waited for.
    AwaitShutdown,
    /// The lifespan is over.
    Over,
}

/// What is known of the failure of a stage.
pub open spec fn stage_error(stage: Stage, detail: Seq<char>) -> Seq<char> {
    match stage {
        Stage::CreateChannel => "could not create lifespan channel"@,
        Stage::SubmitInit => "could not submit lifespan init"@,
        Stage::AwaitInit => "lifespan init timed out"@,
        Stage::Unpack => "bad lifespan channel"@,
        Stage::BuildScope => "could not build lifespan scope"@,
        Stage::CallApp => "could not call lifespan app"@,
        Stage::SubmitApp => "could not submit lifespan app"@,
        _ => detail,
    }
}

/// The stage after one that went well, up to the reply.
pub open spec fn stage_after(stage: Stage) -> Stage {
    match stage {
        Stage::CreateChannel => Stage::SubmitInit,
        Stage::SubmitInit => Stage::AwaitInit,
        Stage::AwaitInit => Stage::Unpack,
        Stage::Unpack => Stage::BuildScope,
        Stage::BuildScope => Stage::CallApp,
        Stage::CallApp => Stage::SubmitApp,
        Stage::SubmitApp => Stage::PutStartup,
        _ => Stage::AwaitReply,
    }
}

/// Whether the first handshake has not been opened yet.
pub open spec fn before_reply(stage: Stage) -> bool {
    ||| stage is CreateChannel
    ||| stage is SubmitInit
    ||| stage is AwaitInit
    ||| stage is Unpack
    ||| stage is BuildScope
    ||| stage is CallApp
    ||| stage is SubmitApp
    ||| stage is PutStartup
}

/// The lifespan of one worker.
#[derive(Debug, Clone, Copy, PartialEq, Eq, Structural)]
pub struct LifespanManager {
    pub stage: Stage,
    /// The application handed over a state.
    pub has_state: bool,
}

impl LifespanManager {
    /// A lifespan at its beginning.
    pub fn startup() -> (r: LifespanManager)
        ensures
            r == (LifespanManager { stage: Stage::CreateChannel, has_state: false }),
    {
        LifespanManager { stage: Stage::CreateChannel, has_state: false }
    }

    /// Takes the outcome of a stage of the start-up. A stage that failed ends
    /// the lifespan: the application does not take part.
    pub fn advance(&mut self, outcome: Result<(), String>) -> (r: Result<(), LifespanError>)
        requires
            before_reply(old(self).stage),
        ensures
            final(self).has_state == old(self).has_state,
            match outcome {
                Ok(_) => r is Ok && final(self).stage == stage_after(old(self).stage),
                Err(detail) => {
                    &&& r matches Err(e) && e@ == LifespanErrorView::Unsupported(
                        stage_error(old(self).stage, detail@),
                    )
                    &&& final(self).stage is Over
                },
            },
    {
        match outcome {
            Ok(()) => {
                self.stage = match self.stage {
                    Stage::CreateChannel => Stage::SubmitInit,
                    Stage::SubmitInit => Stage::AwaitInit,
                    Stage::AwaitInit => Stage::Unpack,
                    Stage::Unpack => Stage::BuildScope,
                    Stage::BuildScope => Stage::CallApp,
                    Stage::CallApp => Stage::SubmitApp,
                    Stage::SubmitApp => Stage::PutStartup,
                    _ => Stage::AwaitReply,
                };
                Ok(())
            },
            Err(detail) => {
                let text = match self.stage {
                    Stage::CreateChannel => "could not create lifespan channel".to_string(),
                    Stage::SubmitInit => "could not submit lifespan init".to_string(),
                    Stage::AwaitInit => "lifespan init timed out".to_string(),
                    Stage::Unpack => "bad lifespan channel".to_string(),
                    Stage::BuildScope => "could not build lifespan scope".to_string(),
                    Stage::CallApp => "could not call lifespan app".to_string(),
                    Stage::SubmitApp => "could not submit lifespan app".to_string(),
                    _ => detail,
                };
                self.stage = Stage::Over;
                Err(LifespanError::Unsupported(text))
            },
        }
    }

    /// Takes the reply to the first handshake.
    pub fn replied(&mut self, reply: &Value) -> (r: Result<(), LifespanError>)
        requires
            old(self).stage is AwaitReply,
        ensures
            match startup_meaning(reply.term()) {
                Ok(state) => r is Ok && *final(self) == (LifespanManager {
                    stage: Stage::Running,
                    has_state: state,
                }),
                Err(e) => {
                    &&& r matches Err(x) && x@ == e
                    &&& *final(self) == (LifespanManager { stage: Stage::Over, ..*old(self) })
                },
            },
    {
        match startup_reply(reply) {
            Ok(state) => {
                self.stage = Stage::Running;
                self.has_state = state;
                Ok(())
            },
            Err(e) => {
                self.stage = Stage::Over;
                Err(e)
            },
        }
    }

    /// Gives up waiting for the reply to the first handshake: the application
    /// is cancelled and does not take part.
    pub fn give_up(&mut self, why: String) -> (r: LifespanError)
        requires
            old(self).stage is AwaitReply,
        ensures
            r@ == LifespanErrorView::Unsupported(why@),
            *final(self) == (LifespanManager { stage: Stage::Over, ..*old(self) }),
    {
        self.stage = Stage::Over;
        LifespanError::Unsupported(why)
    }

    /// Begins the second handshake. The result tells whether there is one:
    /// there is where the first one completed.
    pub fn shutdown(&mut self) -> (r: bool)
        ensures
            r == (old(self).stage is Running),
            *final(self) == if r {
                LifespanManager { stage: Stage::PutShutdown, ..*old(self) }
            } else {
                *old(self)
            },
    {
        if let Stage::Running = self.stage {
            self.stage = Stage::PutShutdown;
            true
        } else {
            false
        }
    }

    /// Takes the outcome of opening the second handshake; where that failed,
    /// nothing more is done. The result tells whether a reply is waited for.
    pub fn shutdown_put(&mut self, ok: bool) -> (r: bool)
        requires
            old(self).stage is PutShutdown,
        ensures
            r == ok,
            *final(self) == (LifespanManager {
                stage: if ok {
                    Stage::AwaitShutdown
                } else {
                    Stage::Over
                },
                ..*old(self)
            }),
    {
        self.stage = if ok {
            Stage::AwaitShutdown
        } else {
            Stage::Over
        };
        ok
    }

    /// Takes the reply to the second handshake, or why there was none. The
    /// result is the line to print; the application is then cancelled.
    pub fn shutdown_got(&mut self, got: Result<Value, String>) -> (r: Option<String>)
        requires
            old(self).stage is AwaitShutdown,
        ensures
            *final(self) == (LifespanManager { stage: Stage::Over, ..*old(self) }),
            match got {
                Ok(reply) => {
                    &&& r is Some <==> text_under(reply.term(), "type"@, ""@)
                        == "lifespan.shutdown.failed"@
                    &&& r matches Some(line) ==> line@
                        == "ERROR rustwasgi: lifespan.shutdown.failed: "@ + text_under(
                        reply.term(),
                        "message"@,
                        "unknown"@,
                    )
                },
                Err(why) => r matches Some(line) && line@ == "WARN rustwasgi: lifespan shutdown: "@
                    + why@,
            },
    {
        self.stage = Stage::Over;
        match got {
            Ok(reply) => shutdown_reply(&reply),
            Err(why) => Some(cat("WARN rustwasgi: lifespan shutdown: ", why.as_str())),
        }
    }
}

/// Whether a failed first handshake ends the worker.
pub open spec fn is_fatal(mode: LifespanMode, e: LifespanErrorView) -> bool {
    !(mode is Auto && e is Unsupported)
}

/// An application fails to start only by saying so, and that is fatal in
/// every mode; whatever else a reply says means that the application does not
/// take part, which is fatal unless the mode is `auto`.
pub proof fn failure_is_explicit(mode: LifespanMode, reply: Term)
    requires
        startup_meaning(reply) is Err,
    ensures
        startup_meaning(reply)->Err_0 is Failed <==> text_under(reply, "type"@, ""@)
            == "lifespan.startup.failed"@,
        is_fatal(mode, startup_meaning(reply)->Err_0) <==> (startup_meaning(reply)->Err_0 is Failed
            || !(mode is Auto)),
{
}

/// What the reply to the first handshake says decides: the application has
/// started, with a state if it handed one over; or it failed, for the reason
/// that it gives; or it does not take part.
pub proof fn reply_decides(m: Seq<(Seq<char>, Term)>, kind: Seq<char>, why: Seq<char>)
    requires
        value::lookup(m, "type"@) == Some(Term::Str(kind)),
    ensures
        kind == "lifespan.startup.complete"@ ==> startup_meaning(Term::Dict(m)) == Ok::<
            _,
            LifespanErrorView,
        >(value::lookup(m, "state"@) is Some),
        kind == "lifespan.startup.failed"@ && value::lookup(m, "message"@) == Some(Term::Str(why))
            ==> startup_meaning(Term::Dict(m)) == Err::<bool, _>(LifespanErrorView::Failed(why)),
        kind == "lifespan.startup.failed"@ && value::lookup(m, "message"@) is None
            ==> startup_meaning(Term::Dict(m)) == Err::<bool, _>(
            LifespanErrorView::Failed("unknown"@),
        ),
        kind != "lifespan.startup.complete"@ && kind != "lifespan.startup.failed"@
            ==> startup_meaning(Term::Dict(m)) matches Err(LifespanErrorView::Unsupported(_)),
{
    reveal_strlit("lifespan.startup.complete");
    reveal_strlit("lifespan.startup.failed");
    assert("lifespan.startup.complete"@.len() == 25);
    assert("lifespan.startup.failed"@.len() == 23);
}

/// A reply without a type, and anything but a mapping, is no reply: the
/// application does not take part.
pub proof fn no_type_is_no_reply(reply: Term)
    requires
        value::lookup(asgi::entries(reply), "type"@) is None,
    ensures
        startup_meaning(reply) matches Err(LifespanErrorView::Unsupported(_)),
{
    reveal_strlit("lifespan.startup.complete");
    reveal_strlit("lifespan.startup.failed");
    reveal_strlit("");
    assert("lifespan.startup.complete"@.len() == 25);
    assert("lifespan.startup.failed"@.len() == 23);
}

/// A failure to start ends the worker in every mode; that the application does
/// not take part ends it unless the mode is `auto`.
pub proof fn fatal_unless_auto(mode: LifespanMode, why: Seq<char>)
    ensures
        is_fatal(mode, LifespanErrorView::Failed(why)),
        is_fatal(mode, LifespanErrorView::Unsupported(why)) <==> mode is On || mode is Off,
{
}

/// The mode is named in any case: `off` and `on` are what they say, any other
/// name is `auto`.
pub proof fn modes_are_named(s: Seq<char>)
    ensures
        LifespanMode::named(s) is Off <==> text::lower(s) == "off"@,
        LifespanMode::named(s) is On <==> text::lower(s) == "on"@,
        LifespanMode::named(text::lower(s)) == LifespanMode::named(s),
{
    reveal_strlit("off");
    reveal_strlit("on");
    assert("off"@.len() == 3 && "on"@.len() == 2);
    text::lower_is_by_letter(s);
}

/// The start-up goes through its eight stages in order, and only then waits for
/// the reply: the channel is made before the application is called, and the
/// application is called before the handshake is opened.
pub proof fn start_up_goes_in_order(stage: Stage)
    ensures
        stage_after(Stage::CreateChannel) is SubmitInit,
        stage_after(Stage::SubmitInit) is AwaitInit,
        stage_after(Stage::AwaitInit) is Unpack,
        stage_after(Stage::Unpack) is BuildScope,
        stage_after(Stage::BuildScope) is CallApp,
        stage_after(Stage::CallApp) is SubmitApp,
        stage_after(Stage::SubmitApp) is PutStartup,
        stage_after(Stage::PutStartup) is AwaitReply,
        before_reply(stage) && !(stage is PutStartup) <==> before_reply(stage) && before_reply(
            stage_after(stage),
        ),
        before_reply(stage) <==> !(stage is AwaitReply || stage is Running || stage is PutShutdown
            || stage is AwaitShutdown || stage is Over),
{
}

/// The scope of a lifespan says so, and offers an empty state to fill.
pub proof fn scope_offers_a_state()
    ensures
        ({
            let m = asgi::entries(lifespan_scope());
            &&& value::lookup(m, "type"@) == Some(Term::Str("lifespan"@))
            &&& value::lookup(m, "asgi"@) == Some(asgi::version_term())
            &&& value::lookup(m, "state"@) == Some(Term::Dict(Seq::empty()))
        }),
{
    asgi::keys_differ();
    let m = asgi::entries(lifespan_scope());
    asgi::lookup_at(m, "type"@, 0);
    asgi::lookup_at(m, "asgi"@, 1);
    asgi::lookup_at(m, "state"@, 2);
}

/// The text under a key is that of its entry, or the other one where there is
/// none or it is no text.
pub proof fn text_under_its_key(m: Seq<(Seq<char>, Term)>, key: Seq<char>, s: Seq<char>, o: Seq<char>)
    ensures
        value::lookup(m, key) == Some(Term::Str(s)) ==> text_under(Term::Dict(m), key, o) == s,
        value::lookup(m, key) is None ==> text_under(Term::Dict(m), key, o) == o,
        value::lookup(m, key) is Some && !(value::lookup(m, key)->0 is Str) ==> text_under(
            Term::Dict(m),
            key,
            o,
        ) == o,
{
}

} // verus!
