//! One HTTP exchange, from the set-up of the call to the release of the
//! request's guard.
//!
//! The exchange is a machine: whoever owns the sockets and the interpreter
//! reports what happened as an [`Event`] and carries out the [`Effects`] that
//! come back, in the order in which their fields are listed.

use vstd::prelude::*;
use crate::asgi::{RequestData, ResponseEvent};
use crate::metrics;
use crate::metrics::Metrics;
use crate::text::str_eq;

verus! {

/// Seconds that the application may take for its first event.
pub const FIRST_RESPONSE_TIMEOUT: u64 = 30;

/// Seconds that the application may take in all once it has started to
/// respond.
pub const APP_COMPLETION_TIMEOUT: u64 = 300;

/// Where an exchange stands.
#[derive(Debug, Clone, Copy, PartialEq, Eq, Structural)]
pub enum Stage {
    /// The call is being set up.
    Establish,
    /// The start of the response is waited for.
    Head,
    /// The response streams.
    Stream,
    /// A chunk is on its way to the client; `more` tells whether others may
    /// follow.
    Sending { more: bool },
    /// The body is closed; the application is looked at one last time.
    Settle,
    /// The exchange is over.
    Done,
}

/// How an application ended, as the reaper saw it.
#[derive(Debug, Clone, Copy, PartialEq, Eq, Structural)]
pub enum Ending {
    Returned,
    Raised,
    TimedOut,
}

/// What happened.
#[derive(Debug)]
pub enum Event {
    /// The call is set up.
    Established,
    /// The call could not be set up.
    EstablishFailed,
    /// The application sent a start event.
    Start { status: u16 },
    /// The application sent a body event.
    Body { data: Vec<u8>, more: bool },
    /// The application's end of the response channel is gone.
    SinkClosed,
    /// The application finished.
    AppDone { raised: bool },
    /// A step of feeding the request's body is done; `more` tells whether
    /// feeding goes on.
    Fed { more: bool },
    /// The time of the present stage is up.
    Deadline,
    /// The chunk went out.
    Sent,
    /// The chunk did not go out: the client is gone.
    SendFailed,
    /// The last look at the application.
    Polled { done: bool, raised: bool },
    /// The reaper saw the application end.
    Reaped { ending: Ending },
}

impl Event {
    /// What an event of the application is to the exchange, and the headers of
    /// a start. Nothing stands for the end of the response channel.
    pub fn of_response(event: Option<ResponseEvent>) -> (r: (Event, Vec<(Vec<u8>, Vec<u8>)>))
        ensures
            match event {
                Some(ResponseEvent::Start { status, headers }) => r == (
                    Event::Start { status },
                    headers,
                ),
                Some(ResponseEvent::Body { data, more_body }) => r.0 == (Event::Body {
                    data,
                    more: more_body,
                }) && r.1@.len() == 0,
                None => r.0 is SinkClosed && r.1@.len() == 0,
            },
    {
        match event {
            Some(ResponseEvent::Start { status, headers }) => (Event::Start { status }, headers),
            Some(ResponseEvent::Body { data, more_body }) => (
                Event::Body { data, more: more_body },
                Vec::new(),
            ),
            None => (Event::SinkClosed, Vec::new()),
        }
    }
}

/// A line for the log.
#[derive(Debug, Clone, Copy, PartialEq, Eq, Structural)]
pub enum Line {
    EstablishFailed,
    BodyBeforeStart,
    NoResponse,
    DuplicateStart,
    TimedOut,
}

/// What is to be returned to the client.
#[derive(Debug, Clone, Copy, PartialEq, Eq, Structural)]
pub enum Reply {
    Nothing,
    /// The head that the application started, with a streaming body.
    Head,
    /// `500 Internal Server Error`.
    Failure,
}

/// An entry for the access log.
#[derive(Debug, Clone, Copy, PartialEq, Eq, Structural)]
pub struct Access {
    pub status: u16,
    pub size: u64,
}

/// What is to be done, in this order.
#[derive(Debug)]
pub struct Effects {
    /// A counter to add one to.
    pub count: Option<usize>,
    /// Record how long the set-up took.
    pub time_establish: bool,
    /// Record how long the application was waited for.
    pub time_app: bool,
    /// Print the application's traceback.
    pub traceback: bool,
    /// Print a line.
    pub line: Option<Line>,
    /// Hand a chunk to the client.
    pub forward: Option<Vec<u8>>,
    /// From now on `send()` fails: the client is gone.
    pub gone: bool,
    /// Tell the application that the client is gone.
    pub disconnect: bool,
    /// Close the response's body.
    pub close: bool,
    /// Look at the application, without waiting.
    pub poll: bool,
    /// Let a reaper wait for the application.
    pub reap: bool,
    /// Write an entry to the access log.
    pub access: Option<Access>,
    /// Return a response.
    pub reply: Reply,
    /// Record how long it took until the response was returned.
    pub time_total: bool,
    /// Record how long the body streamed.
    pub time_pump: bool,
    /// Release the request's guard.
    pub release: bool,
}

/// The state of one exchange.
#[derive(Debug, Clone, Copy, PartialEq, Eq, Structural)]
pub struct Exchange {
    pub stage: Stage,
    /// The request is a `HEAD` request.
    pub is_head: bool,
    /// The request's body is still being fed to the application.
    pub feeding: bool,
    /// The application has finished.
    pub app_done: bool,
    /// The application's end has been logged.
    pub app_logged: bool,
    /// A reaper waits for the application.
    pub reaping: bool,
    /// The status that the application started with.
    pub status: u16,
    /// Bytes of body that the application has sent.
    pub bytes_sent: u64,
}

/// Nothing to do.
pub open spec fn idle() -> Effects {
    Effects {
        count: None,
        time_establish: false,
        time_app: false,
        traceback: false,
        line: None,
        forward: None,
        gone: false,
        disconnect: false,
        close: false,
        poll: false,
        reap: false,
        access: None,
        reply: Reply::Nothing,
        time_total: false,
        time_pump: false,
        release: false,
    }
}

impl Effects {
    fn none() -> (r: Effects)
        ensures
            r == idle(),
    {
        Effects {
            count: None,
            time_establish: false,
            time_app: false,
            traceback: false,
            line: None,
            forward: None,
            gone: false,
            disconnect: false,
            close: false,
            poll: false,
            reap: false,
            access: None,
            reply: Reply::Nothing,
            time_total: false,
            time_pump: false,
            release: false,
        }
    }
}

/// The access log entry of an exchange that failed before its response.
pub open spec fn failure_entry() -> Option<Access> {
    Some(Access { status: 500, size: 0 })
}

impl Exchange {
    /// Whether an event can happen in this state.
    pub open spec fn expects(self, event: Event) -> bool {
        match event {
            Event::Established | Event::EstablishFailed => self.stage is Establish,
            Event::Start { .. } | Event::SinkClosed | Event::Deadline => self.stage is Head
                || self.stage is Stream,
            Event::Body { data, .. } => (self.stage is Head || self.stage is Stream)
                && self.bytes_sent + data@.len() <= u64::MAX,
            Event::AppDone { .. } => (self.stage is Head || self.stage is Stream)
                && !self.app_done,
            Event::Fed { .. } => (self.stage is Head || self.stage is Stream) && self.feeding,
            Event::Sent | Event::SendFailed => self.stage is Sending,
            Event::Polled { .. } => self.stage is Settle,
            Event::Reaped { .. } => self.stage is Done && self.reaping,
        }
    }

    /// A response before any start of the application: `500`, and the exchange
    /// is over.
    pub open spec fn failed(self, fx: Effects) -> (Exchange, Effects) {
        (
            Exchange { stage: Stage::Done, reaping: fx.reap, ..self },
            Effects { reply: Reply::Failure, release: true, ..fx },
        )
    }

    /// The body is closed. Where the application has finished, so has the
    /// exchange; else it is looked at once more.
    pub open spec fn closing(self, fx: Effects) -> (Exchange, Effects) {
        if self.app_done {
            self.finished(Effects { close: true, ..fx })
        } else {
            (
                Exchange { stage: Stage::Settle, ..self },
                Effects { close: true, poll: true, ..fx },
            )
        }
    }

    /// The end of an exchange with a response: one entry in the access log,
    /// and the guard is released.
    pub open spec fn finished(self, fx: Effects) -> (Exchange, Effects) {
        (
            Exchange { stage: Stage::Done, reaping: fx.reap, ..self },
            Effects {
                access: Some(Access { status: self.status, size: self.bytes_sent }),
                time_pump: true,
                release: true,
                ..fx
            },
        )
    }

    /// The application finished: its end is logged unless it was before.
    pub open spec fn observed(self, raised: bool, fx: Effects) -> (Exchange, Effects) {
        if self.app_logged {
            (self, fx)
        } else {
            (
                Exchange { app_logged: true, ..self },
                Effects { time_app: true, traceback: raised, ..fx },
            )
        }
    }

    /// The state after an event, and what is to be done.
    pub open spec fn next(self, event: Event) -> (Exchange, Effects) {
        let quiet = idle();
        match event {
            Event::Established => (
                Exchange { stage: Stage::Head, ..self },
                Effects { time_establish: true, ..quiet },
            ),
            Event::EstablishFailed => self.failed(
                Effects {
                    time_establish: true,
                    line: Some(Line::EstablishFailed),
                    access: failure_entry(),
                    ..quiet
                },
            ),
            Event::Start { status } => if self.stage is Head {
                (
                    Exchange { stage: Stage::Stream, status, ..self },
                    Effects {
                        count: Some(metrics::C_SPAWNS),
                        reply: Reply::Head,
                        time_total: true,
                        ..quiet
                    },
                )
            } else {
                (self, Effects { line: Some(Line::DuplicateStart), ..quiet })
            },
            Event::Body { data, more } => if self.stage is Head {
                self.failed(
                    Effects {
                        count: Some(metrics::C_SPAWNS),
                        line: Some(Line::BodyBeforeStart),
                        disconnect: true,
                        reap: true,
                        ..quiet
                    },
                )
            } else {
                let counted = Exchange {
                    bytes_sent: (self.bytes_sent + data@.len()) as u64,
                    ..self
                };
                if !self.is_head && data@.len() > 0 {
                    (
                        Exchange { stage: Stage::Sending { more }, ..counted },
                        Effects { forward: Some(data), ..quiet },
                    )
                } else if more {
                    (counted, quiet)
                } else {
                    counted.closing(quiet)
                }
            },
            Event::SinkClosed => if self.stage is Head {
                self.failed(
                    Effects {
                        count: Some(metrics::C_SPAWNS),
                        reap: true,
                        access: failure_entry(),
                        ..quiet
                    },
                )
            } else {
                self.closing(quiet)
            },
            Event::AppDone { raised } => {
                let counter = if self.stage is Head {
                    metrics::C_APPDONE_A
                } else {
                    metrics::C_APPDONE_PUMP
                };
                Exchange { app_done: true, ..self }.observed(
                    raised,
                    Effects { count: Some(counter), ..quiet },
                )
            },
            Event::Fed { more } => (Exchange { feeding: more, ..self }, quiet),
            Event::Deadline => if self.stage is Head {
                self.failed(
                    Effects {
                        count: Some(metrics::C_SPAWNS),
                        line: Some(Line::NoResponse),
                        reap: true,
                        access: failure_entry(),
                        ..quiet
                    },
                )
            } else {
                self.closing(
                    Effects {
                        count: Some(metrics::C_APPDONE_DEADLINE),
                        line: Some(Line::TimedOut),
                        ..quiet
                    },
                )
            },
            Event::Sent => if self.stage == (Stage::Sending { more: true }) {
                (Exchange { stage: Stage::Stream, ..self }, quiet)
            } else {
                self.closing(quiet)
            },
            Event::SendFailed => self.closing(Effects { gone: true, disconnect: true, ..quiet }),
            Event::Polled { done, raised } => if done {
                let seen = self.observed(
                    raised,
                    Effects { count: Some(metrics::C_APPDONE_NOWNOVER), ..quiet },
                );
                seen.0.finished(seen.1)
            } else {
                self.finished(Effects { count: Some(metrics::C_SPAWNS), reap: true, ..quiet })
            },
            Event::Reaped { ending } => {
                let seen = Exchange { reaping: false, ..self }.observed(
                    ending is Raised,
                    Effects { count: Some(metrics::C_APPDONE_REAPER), ..quiet },
                );
                if ending is TimedOut && !self.app_logged {
                    (seen.0, Effects { line: Some(Line::TimedOut), ..seen.1 })
                } else {
                    seen
                }
            },
        }
    }

    /// A new exchange: the call is about to be set up.
    pub fn new(is_head: bool, has_body: bool) -> (r: Exchange)
        ensures
            r == begun(is_head, has_body),
    {
        Exchange {
            stage: Stage::Establish,
            is_head,
            feeding: has_body,
            app_done: false,
            app_logged: false,
            reaping: false,
            status: 0,
            bytes_sent: 0,
        }
    }

    fn fail(&mut self, fx: Effects) -> (r: Effects)
        ensures
            (*final(self), r) == old(self).failed(fx),
    {
        self.stage = Stage::Done;
        self.reaping = fx.reap;
        let mut out = fx;
        out.reply = Reply::Failure;
        out.release = true;
        out
    }

    fn finish(&mut self, fx: Effects) -> (r: Effects)
        ensures
            (*final(self), r) == old(self).finished(fx),
    {
        self.stage = Stage::Done;
        self.reaping = fx.reap;
        let mut out = fx;
        out.access = Some(Access { status: self.status, size: self.bytes_sent });
        out.time_pump = true;
        out.release = true;
        out
    }

    fn close(&mut self, fx: Effects) -> (r: Effects)
        ensures
            (*final(self), r) == old(self).closing(fx),
    {
        let mut out = fx;
        out.close = true;
        if self.app_done {
            self.finish(out)
        } else {
            self.stage = Stage::Settle;
            out.poll = true;
            out
        }
    }

    fn observe(&mut self, raised: bool, fx: Effects) -> (r: Effects)
        ensures
            (*final(self), r) == old(self).observed(raised, fx),
    {
        let mut out = fx;
        if !self.app_logged {
            self.app_logged = true;
            out.time_app = true;
            out.traceback = raised;
        }
        out
    }

    /// Takes one event, and tells what is to be done.
    pub fn step(&mut self, event: Event) -> (r: Effects)
        requires
            old(self).expects(event),
        ensures
            (*final(self), r) == old(self).next(event),
    {
        let mut fx = Effects::none();
        let head = matches!(self.stage, Stage::Head);
        match event {
            Event::Established => {
                self.stage = Stage::Head;
                fx.time_establish = true;
                fx
            },
            Event::EstablishFailed => {
                fx.time_establish = true;
                fx.line = Some(Line::EstablishFailed);
                fx.access = Some(Access { status: 500, size: 0 });
                self.fail(fx)
            },
            Event::Start { status } => {
                if head {
                    self.stage = Stage::Stream;
                    self.status = status;
                    fx.count = Some(metrics::C_SPAWNS);
                    fx.reply = Reply::Head;
                    fx.time_total = true;
                } else {
                    fx.line = Some(Line::DuplicateStart);
                }
                fx
            },
            Event::Body { data, more } => {
                if head {
                    fx.count = Some(metrics::C_SPAWNS);
                    fx.line = Some(Line::BodyBeforeStart);
                    fx.disconnect = true;
                    fx.reap = true;
                    self.fail(fx)
                } else {
                    let len: u64 = data.len() as u64;
                    self.bytes_sent = self.bytes_sent + len;
                    if !self.is_head && len > 0 {
                        self.stage = Stage::Sending { more };
                        fx.forward = Some(data);
                        fx
                    } else if more {
                        fx
                    } else {
                        self.close(fx)
                    }
                }
            },
            Event::SinkClosed => {
                if head {
                    fx.count = Some(metrics::C_SPAWNS);
                    fx.reap = true;
                    fx.access = Some(Access { status: 500, size: 0 });
                    self.fail(fx)
                } else {
                    self.close(fx)
                }
            },
            Event::AppDone { raised } => {
                self.app_done = true;
                fx.count = Some(
                    if head {
                        metrics::C_APPDONE_A
                    } else {
                        metrics::C_APPDONE_PUMP
                    },
                );
                self.observe(raised, fx)
            },
            Event::Fed { more } => {
                self.feeding = more;
                fx
            },
            Event::Deadline => {
                if head {
                    fx.count = Some(metrics::C_SPAWNS);
                    fx.line = Some(Line::NoResponse);
                    fx.reap = true;
                    fx.access = Some(Access { status: 500, size: 0 });
                    self.fail(fx)
                } else {
                    fx.count = Some(metrics::C_APPDONE_DEADLINE);
                    fx.line = Some(Line::TimedOut);
                    self.close(fx)
                }
            },
            Event::Sent => {
                if let Stage::Sending { more: true } = self.stage {
                    self.stage = Stage::Stream;
                    fx
                } else {
                    self.close(fx)
                }
            },
            Event::SendFailed => {
                fx.gone = true;
                fx.disconnect = true;
                self.close(fx)
            },
            Event::Polled { done, raised } => {
                if done {
                    fx.count = Some(metrics::C_APPDONE_NOWNOVER);
                    let seen = self.observe(raised, fx);
                    self.finish(seen)
                } else {
                    fx.count = Some(metrics::C_SPAWNS);
                    fx.reap = true;
                    self.finish(fx)
                }
            },
            Event::Reaped { ending } => {
                let logged = self.app_logged;
                self.reaping = false;
                fx.count = Some(metrics::C_APPDONE_REAPER);
                let mut seen = self.observe(matches!(ending, Ending::Raised), fx);
                if !logged && matches!(ending, Ending::TimedOut) {
                    seen.line = Some(Line::TimedOut);
                }
                seen
            },
        }
    }
}

/// Begins the exchange of a request; the request is counted.
pub fn handle_http(metrics: &mut Metrics, data: &RequestData) -> (r: Exchange)
    requires
        old(metrics)@.sized(),
    ensures
        r == begun(data.method@ == "HEAD"@, data.has_body),
        final(metrics)@ == old(metrics)@.counted(metrics::C_REQUESTS as int),
        final(metrics)@.sized(),
{
    metrics::inc(metrics, metrics::C_REQUESTS);
    Exchange::new(str_eq(data.method.as_str(), "HEAD"), data.has_body)
}

/// An exchange at its beginning.
pub open spec fn begun(is_head: bool, has_body: bool) -> Exchange {
    Exchange {
        stage: Stage::Establish,
        is_head,
        feeding: has_body,
        app_done: false,
        app_logged: false,
        reaping: false,
        status: 0,
        bytes_sent: 0,
    }
}

/// At its beginning an exchange has neither a status nor a body, nothing of the
/// application was seen, and the request is fed if and only if it has a body.
pub proof fn begins_with_nothing(is_head: bool, has_body: bool)
    ensures
        ({
            let x = begun(is_head, has_body);
            &&& x.stage is Establish
            &&& x.status == 0 && x.bytes_sent == 0
            &&& !x.app_done && !x.app_logged && !x.reaping
            &&& x.feeding == has_body
            &&& x.is_head == is_head
        }),
{
}

impl Line {
    /// The text of this line.
    pub open spec fn spec_text(self) -> Seq<char> {
        match self {
            Line::EstablishFailed => "ERROR rustwasgi: "@,
            Line::BodyBeforeStart => "ERROR rustwasgi: app sent body before response.start"@,
            Line::NoResponse => "ERROR rustwasgi: app did not respond in time; returning 500"@,
            Line::DuplicateStart => "WARN rustwasgi: duplicate response.start ignored"@,
            Line::TimedOut => "ERROR rustwasgi: ASGI application timed out; dropping"@,
        }
    }

    /// The text of this line; that of a failed set-up is followed by what
    /// went wrong.
    pub fn text(self) -> (r: &'static str)
        ensures
            r@ == self.spec_text(),
    {
        match self {
            Line::EstablishFailed => "ERROR rustwasgi: ",
            Line::BodyBeforeStart => "ERROR rustwasgi: app sent body before response.start",
            Line::NoResponse => "ERROR rustwasgi: app did not respond in time; returning 500",
            Line::DuplicateStart => "WARN rustwasgi: duplicate response.start ignored",
            Line::TimedOut => "ERROR rustwasgi: ASGI application timed out; dropping",
        }
    }
}

/// Whether a series of events can happen, one after the other.
pub open spec fn possible(x: Exchange, events: Seq<Event>) -> bool
    decreases events.len(),
{
    events.len() == 0 || {
        &&& possible(x, events.drop_last())
        &&& after(x, events.drop_last()).expects(events.last())
    }
}

/// The state after a series of events.
pub open spec fn after(x: Exchange, events: Seq<Event>) -> Exchange
    decreases events.len(),
{
    if events.len() == 0 {
        x
    } else {
        after(x, events.drop_last()).next(events.last()).0
    }
}

/// What was done on each event of a series.
pub open spec fn done_on(x: Exchange, events: Seq<Event>) -> Seq<Effects>
    decreases events.len(),
{
    if events.len() == 0 {
        Seq::empty()
    } else {
        done_on(x, events.drop_last()).push(after(x, events.drop_last()).next(events.last()).1)
    }
}

/// How often each thing was done.
pub struct Tally {
    pub heads: nat,
    pub failures: nat,
    pub entries: nat,
    pub tracebacks: nat,
    pub app_times: nat,
    pub forwards: nat,
    pub gones: nat,
    pub closes: nat,
    pub reaps: nat,
    pub releases: nat,
}

pub open spec fn one_if(b: bool) -> nat {
    if b {
        1
    } else {
        0
    }
}

/// How often each thing was done in a series.
pub open spec fn tally(done: Seq<Effects>) -> Tally
    decreases done.len(),
{
    if done.len() == 0 {
        Tally {
            heads: 0,
            failures: 0,
            entries: 0,
            tracebacks: 0,
            app_times: 0,
            forwards: 0,
            gones: 0,
            closes: 0,
            reaps: 0,
            releases: 0,
        }
    } else {
        let t = tally(done.drop_last());
        let fx = done.last();
        Tally {
            heads: t.heads + one_if(fx.reply is Head),
            failures: t.failures + one_if(fx.reply is Failure),
            entries: t.entries + one_if(fx.access is Some),
            tracebacks: t.tracebacks + one_if(fx.traceback),
            app_times: t.app_times + one_if(fx.time_app),
            forwards: t.forwards + one_if(fx.forward is Some),
            gones: t.gones + one_if(fx.gone),
            closes: t.closes + one_if(fx.close),
            reaps: t.reaps + one_if(fx.reap),
            releases: t.releases + one_if(fx.release),
        }
    }
}

/// The bytes of body that an event brings: those of a body event after the
/// start of the response.
pub open spec fn bytes_of(now: Exchange, event: Event) -> Seq<u8> {
    match event {
        Event::Body { data, .. } => if now.stage is Stream {
            data@
        } else {
            Seq::empty()
        },
        _ => Seq::empty(),
    }
}

/// The bytes of body that the application sent after the start of its
/// response, by a series of events, one chunk after the other.
pub open spec fn body_bytes(x: Exchange, events: Seq<Event>) -> Seq<u8>
    decreases events.len(),
{
    if events.len() == 0 {
        Seq::empty()
    } else {
        let before = events.drop_last();
        body_bytes(x, before) + bytes_of(after(x, before), events.last())
    }
}

/// The bytes that were handed to the client in a series, one chunk after the
/// other.
pub open spec fn wire_bytes(done: Seq<Effects>) -> Seq<u8>
    decreases done.len(),
{
    if done.len() == 0 {
        Seq::empty()
    } else {
        wire_bytes(done.drop_last()) + match done.last().forward {
            Some(data) => data@,
            None => Seq::empty(),
        }
    }
}

/// Whether the application sent a body event before the start of a response.
pub open spec fn early_body(x: Exchange, events: Seq<Event>) -> bool
    decreases events.len(),
{
    events.len() > 0 && {
        ||| early_body(x, events.drop_last())
        ||| after(x, events.drop_last()).stage is Head && events.last() is Body
    }
}

/// What holds after every series of events: of the state, of what was done,
/// of whether a body came early, and of the bytes that were sent.
spec fn sound(now: Exchange, t: Tally, early: bool, sent: nat) -> bool {
    let responding = now.stage is Stream || now.stage is Sending || now.stage is Settle;
    &&& t.heads + t.failures == one_if(!(now.stage is Establish || now.stage is Head))
    &&& responding ==> t.heads == 1
    &&& t.releases == one_if(now.stage is Done)
    &&& t.entries == one_if(now.stage is Done && !early)
    &&& early ==> now.stage is Done && t.failures == 1
    &&& t.tracebacks <= t.app_times
    &&& t.app_times == one_if(now.app_logged)
    &&& now.app_done ==> now.app_logged
    &&& now.is_head ==> t.forwards == 0
    &&& t.heads == 0 ==> t.forwards == 0 && t.closes == 0 && now.bytes_sent == 0
    &&& t.closes == one_if(t.heads == 1 && (now.stage is Settle || now.stage is Done))
    &&& t.gones <= t.closes
    &&& t.reaps <= one_if(now.stage is Done)
    &&& now.reaping ==> now.stage is Done && t.reaps == 1
    &&& now.bytes_sent == sent
    &&& now.stage is Settle ==> !now.app_done
}

/// How often each thing was done, with one more step.
spec fn tally_more(t: Tally, fx: Effects) -> Tally {
    Tally {
        heads: t.heads + one_if(fx.reply is Head),
        failures: t.failures + one_if(fx.reply is Failure),
        entries: t.entries + one_if(fx.access is Some),
        tracebacks: t.tracebacks + one_if(fx.traceback),
        app_times: t.app_times + one_if(fx.time_app),
        forwards: t.forwards + one_if(fx.forward is Some),
        gones: t.gones + one_if(fx.gone),
        closes: t.closes + one_if(fx.close),
        reaps: t.reaps + one_if(fx.reap),
        releases: t.releases + one_if(fx.release),
    }
}

#[verifier::spinoff_prover]
#[verifier::rlimit(40)]
proof fn step_sound(now: Exchange, event: Event, t: Tally, early: bool, sent: nat)
    requires
        sound(now, t, early, sent),
        now.expects(event),
    ensures
        sound(
            now.next(event).0,
            tally_more(t, now.next(event).1),
            early || now.stage is Head && event is Body,
            sent + bytes_of(now, event).len(),
        ),
        now.next(event).0.is_head == now.is_head,
{
    match event {
        Event::Established => {},
        Event::EstablishFailed => {},
        Event::Start { status } => {},
        Event::Body { data, more } => {},
        Event::SinkClosed => {},
        Event::AppDone { raised } => {},
        Event::Fed { more } => {},
        Event::Deadline => {},
        Event::Sent => {},
        Event::SendFailed => {},
        Event::Polled { done, raised } => {},
        Event::Reaped { ending } => {},
    }
}

spec fn kept(is_head: bool, has_body: bool, events: Seq<Event>) -> bool {
    let x = begun(is_head, has_body);
    &&& sound(
        after(x, events),
        tally(done_on(x, events)),
        early_body(x, events),
        body_bytes(x, events).len(),
    )
    &&& after(x, events).is_head == is_head
}

proof fn always_kept(is_head: bool, has_body: bool, events: Seq<Event>)
    requires
        possible(begun(is_head, has_body), events),
    ensures
        kept(is_head, has_body, events),
    decreases events.len(),
{
    if events.len() > 0 {
        let x = begun(is_head, has_body);
        let before = events.drop_last();
        always_kept(is_head, has_body, before);
        assert(done_on(x, events).drop_last() =~= done_on(x, before));
        step_sound(
            after(x, before),
            events.last(),
            tally(done_on(x, before)),
            early_body(x, before),
            body_bytes(x, before).len(),
        );
    }
}

/// Every exchange answers its request exactly once by the time it is over,
/// and never twice: with the head that the application started, or with a
/// failure.
pub proof fn one_reply(is_head: bool, has_body: bool, events: Seq<Event>)
    requires
        possible(begun(is_head, has_body), events),
    ensures
        ({
            let x = begun(is_head, has_body);
            let t = tally(done_on(x, events));
            &&& t.heads + t.failures <= 1
            &&& after(x, events).stage is Done ==> t.heads + t.failures == 1
        }),
{
    always_kept(is_head, has_body, events);
}

/// The request's guard is released exactly once, and not before the exchange
/// is over: until then the request counts as in flight.
pub proof fn guard_released_at_the_end(is_head: bool, has_body: bool, events: Seq<Event>)
    requires
        possible(begun(is_head, has_body), events),
    ensures
        ({
            let x = begun(is_head, has_body);
            tally(done_on(x, events)).releases == one_if(after(x, events).stage is Done)
        }),
{
    always_kept(is_head, has_body, events);
}

/// No byte of a body is forwarded in answer to a `HEAD` request.
pub proof fn head_has_no_body(has_body: bool, events: Seq<Event>)
    requires
        possible(begun(true, has_body), events),
    ensures
        tally(done_on(begun(true, has_body), events)).forwards == 0,
{
    always_kept(true, has_body, events);
}

/// Every chunk that the application sends in its response is forwarded as it
/// is, in a step of its own, unless it is empty or answers a `HEAD` request;
/// nothing else is.
pub proof fn every_chunk_is_forwarded(x: Exchange, event: Event)
    requires
        x.expects(event),
    ensures
        x.next(event).1.forward == match event {
            Event::Body { data, .. } => if x.stage is Stream && !x.is_head && data@.len() > 0 {
                Some(data)
            } else {
                None
            },
            _ => None,
        },
{
}

/// What is handed to the client is the concatenation of the chunks that the
/// application sent in its response, byte for byte; for a `HEAD` request it is
/// nothing.
pub proof fn wire_is_the_body(is_head: bool, has_body: bool, events: Seq<Event>)
    requires
        possible(begun(is_head, has_body), events),
    ensures
        wire_bytes(done_on(begun(is_head, has_body), events)) == if is_head {
            Seq::empty()
        } else {
            body_bytes(begun(is_head, has_body), events)
        },
    decreases events.len(),
{
    if events.len() > 0 {
        let x = begun(is_head, has_body);
        let before = events.drop_last();
        wire_is_the_body(is_head, has_body, before);
        always_kept(is_head, has_body, before);
        every_chunk_is_forwarded(after(x, before), events.last());
        assert(done_on(x, events).drop_last() =~= done_on(x, before));
        assert(wire_bytes(done_on(x, events)) =~= if is_head {
            Seq::empty()
        } else {
            body_bytes(x, events)
        });
    }
}

/// A response that streams is closed only for a cause, and always for one: the
/// application said that its chunk was the last and it needs no more sending,
/// its end of the channel is gone, the time is up, or the client is gone. That
/// the application has finished is no cause: what it sent before is still
/// waiting.
pub proof fn closed_for_a_cause(x: Exchange, event: Event)
    requires
        x.expects(event),
    ensures
        x.next(event).1.close <==> match event {
            Event::Body { data, more } => x.stage is Stream && !more && (data@.len() == 0
                || x.is_head),
            Event::Sent => x.stage == (Stage::Sending { more: false }),
            Event::SendFailed => true,
            Event::SinkClosed | Event::Deadline => x.stage is Stream,
            _ => false,
        },
{
}

/// A response that streams and is not closed goes on streaming: it takes the
/// next event of the application, or waits until its chunk went out.
pub proof fn stream_goes_on(x: Exchange, event: Event)
    requires
        x.expects(event),
        x.stage is Stream || x.stage is Sending,
        !x.next(event).1.close,
    ensures
        x.next(event).0.stage == match event {
            Event::Body { data, more } => if data@.len() > 0 && !x.is_head {
                Stage::Sending { more }
            } else {
                Stage::Stream
            },
            _ => Stage::Stream,
        },
        x.next(event).0.status == x.status,
{
}

/// While the response is waited for or streams, every event of the application
/// is taken, whether or not it has finished; what it sent is never left behind.
pub proof fn sends_are_taken(x: Exchange, data: Vec<u8>, more: bool, status: u16)
    requires
        x.stage is Head || x.stage is Stream,
        x.bytes_sent + data@.len() <= u64::MAX,
    ensures
        x.expects(Event::Body { data, more }),
        x.expects(Event::Start { status }),
        x.expects(Event::SinkClosed),
{
}

/// What the application sent as body, event by event: the bytes, and whether
/// more was to follow.
pub open spec fn sends(events: Seq<Event>) -> Seq<(Seq<u8>, bool)>
    decreases events.len(),
{
    if events.len() == 0 {
        Seq::empty()
    } else {
        let rest = sends(events.drop_last());
        match events.last() {
            Event::Body { data, more } => rest.push((data@, more)),
            _ => rest,
        }
    }
}

/// The bytes of some chunks, one after the other.
pub open spec fn concatenated(chunks: Seq<(Seq<u8>, bool)>) -> Seq<u8>
    decreases chunks.len(),
{
    if chunks.len() == 0 {
        Seq::empty()
    } else {
        concatenated(chunks.drop_last()) + chunks.last().0
    }
}

/// Whether an event cuts a response short.
pub open spec fn cuts_short(event: Event) -> bool {
    event is SendFailed || event is SinkClosed || event is Deadline
}

spec fn all_but_last_continue(chunks: Seq<(Seq<u8>, bool)>) -> bool {
    forall|i: int| 0 <= i < chunks.len() - 1 ==> (#[trigger] chunks[i]).1
}

spec fn whole_so_far(now: Exchange, chunks: Seq<(Seq<u8>, bool)>) -> bool {
    &&& all_but_last_continue(chunks)
    &&& match now.stage {
        Stage::Establish | Stage::Head => chunks.len() == 0,
        Stage::Stream => chunks.len() > 0 ==> chunks.last().1,
        Stage::Sending { more } => chunks.len() > 0 && chunks.last().1 == more,
        Stage::Settle | Stage::Done => chunks.len() > 0 && !chunks.last().1,
    }
}

/// A response that nothing cuts short is complete. However its events are
/// mixed with the end of the application: by the time that it is closed, every
/// chunk that the application sent, up to the one with which it said that no
/// more follows, has been handed to the client, byte for byte and in order
/// (none of it for a `HEAD` request).
pub proof fn response_is_complete(is_head: bool, has_body: bool, events: Seq<Event>)
    requires
        possible(begun(is_head, has_body), events),
        tally(done_on(begun(is_head, has_body), events)).heads == 1,
        forall|i: int| 0 <= i < events.len() ==> !cuts_short(#[trigger] events[i]),
    ensures
        ({
            let now = after(begun(is_head, has_body), events);
            let wire = wire_bytes(done_on(begun(is_head, has_body), events));
            let chunks = sends(events);
            &&& wire == if is_head {
                Seq::empty()
            } else {
                concatenated(chunks)
            }
            &&& forall|i: int| 0 <= i < chunks.len() - 1 ==> (#[trigger] chunks[i]).1
            &&& now.stage is Settle || now.stage is Done <==> chunks.len() > 0
                && !chunks.last().1 && !(now.stage is Sending)
        }),
{
    whole(is_head, has_body, events);
    wire_is_the_body(is_head, has_body, events);
    always_kept(is_head, has_body, events);
}

proof fn whole(is_head: bool, has_body: bool, events: Seq<Event>)
    requires
        possible(begun(is_head, has_body), events),
        tally(done_on(begun(is_head, has_body), events)).heads == 1 || after(
            begun(is_head, has_body),
            events,
        ).stage is Establish || after(begun(is_head, has_body), events).stage is Head,
        forall|i: int| 0 <= i < events.len() ==> !cuts_short(#[trigger] events[i]),
    ensures
        whole_so_far(after(begun(is_head, has_body), events), sends(events)),
        body_bytes(begun(is_head, has_body), events) == concatenated(sends(events)),
    decreases events.len(),
{
    let x = begun(is_head, has_body);
    if events.len() > 0 {
        let before = events.drop_last();
        let now = after(x, before);
        assert(done_on(x, events).drop_last() =~= done_on(x, before));
        always_kept(is_head, has_body, before);
        always_kept(is_head, has_body, events);
        assert forall|i: int| 0 <= i < before.len() implies !cuts_short(#[trigger] before[i]) by {
            assert(before[i] == events[i]);
        }
        assert(!cuts_short(events[events.len() - 1]));
        whole(is_head, has_body, before);
        if let Event::Body { data, more } = events.last() {
            assert(sends(events).drop_last() =~= sends(before));
            assert(all_but_last_continue(sends(events))) by {
                assert forall|i: int| 0 <= i < sends(events).len() - 1 implies (
                #[trigger] sends(events)[i]).1 by {
                    assert(sends(events)[i] == sends(before)[i]);
                }
            }
        } else {
            assert(body_bytes(x, events) =~= body_bytes(x, before));
        }
    } else {
        assert(body_bytes(x, events) =~= concatenated(sends(events)));
    }
}

/// The client is answered when the application starts its response, with the
/// status that it started with, or with a failure where it cannot: the call
/// was not set up, or the application sent a body first, gave up or took too
/// long.
pub proof fn answered_by_the_start(x: Exchange, event: Event)
    requires
        x.expects(event),
    ensures
        x.next(event).1.reply is Head <==> event is Start && x.stage is Head,
        x.next(event).1.reply is Failure <==> event is EstablishFailed || x.stage is Head && (
        event is Body || event is SinkClosed || event is Deadline),
        x.next(event).1.reply is Head ==> x.next(event).0.status == event->status && x.next(
            event,
        ).0.stage is Stream,
        x.next(event).1.reply is Failure ==> x.next(event).0.stage is Done,
        event is Established ==> x.next(event).0.stage is Head,
{
}

/// That the client is gone is known from a send that failed; `send()` then
/// fails and the application is told. It is told, too, where it sent a body
/// before the start of its response.
pub proof fn gone_by_a_failed_send(x: Exchange, event: Event)
    requires
        x.expects(event),
    ensures
        x.next(event).1.gone <==> event is SendFailed,
        x.next(event).1.disconnect <==> event is SendFailed || x.stage is Head && event is Body,
{
}

/// An application that has not finished when the response is closed is looked
/// at once; where that, too, finds it at work, or where the response failed,
/// a reaper waits for it.
pub proof fn looked_at_then_reaped(x: Exchange, event: Event)
    requires
        x.expects(event),
    ensures
        x.next(event).1.poll <==> x.next(event).1.close && !x.app_done,
        x.next(event).1.poll <==> x.next(event).0.stage is Settle,
        x.next(event).1.reap <==> event is Polled && !event->done || x.stage is Head && (event is Body
            || event is SinkClosed || event is Deadline),
        !x.reaping ==> (x.next(event).0.reaping <==> x.next(event).1.reap),
        event is Reaped ==> !x.next(event).0.reaping,
{
}

/// The end of the application is noted when it is first seen, and its
/// traceback is printed where it raised.
pub proof fn end_is_noted(x: Exchange, event: Event)
    requires
        x.expects(event),
    ensures
        ({
            let seen = match event {
                Event::AppDone { .. } | Event::Reaped { .. } => true,
                Event::Polled { done, .. } => done,
                _ => false,
            };
            let raised = match event {
                Event::AppDone { raised } => raised,
                Event::Polled { raised, .. } => raised,
                Event::Reaped { ending } => ending is Raised,
                _ => false,
            };
            &&& x.next(event).1.time_app <==> seen && !x.app_logged
            &&& x.next(event).1.traceback <==> seen && !x.app_logged && raised
            &&& x.next(event).0.app_logged <==> x.app_logged || seen
            &&& x.next(event).0.app_done <==> x.app_done || event is AppDone
        }),
{
}

/// The entry in the access log shows what was sent: the status of the start
/// and the bytes of the body, or a `500` without a body where there was no
/// response.
pub proof fn entries_tell_the_response(x: Exchange, event: Event)
    requires
        x.expects(event),
    ensures
        x.next(event).1.access matches Some(entry) ==> {
            if x.next(event).1.reply is Failure {
                entry.status == 500 && entry.size == 0
            } else {
                entry.status == x.status && entry.size == x.next(event).0.bytes_sent
            }
        },
        x.next(event).0.bytes_sent == x.bytes_sent + bytes_of(x, event).len(),
        x.next(event).1.release <==> x.next(event).0.stage is Done && !(x.stage is Done),
        x.next(event).1.time_pump <==> x.next(event).1.release && !(x.next(
            event,
        ).1.reply is Failure),
{
}

/// What is printed, counted and timed tells what happened.
pub proof fn lines_and_counts_tell(x: Exchange, event: Event)
    requires
        x.expects(event),
    ensures
        ({
            let fx = x.next(event).1;
            let early = x.stage is Head;
            &&& fx.line == Some(Line::EstablishFailed) <==> event is EstablishFailed
            &&& fx.line == Some(Line::BodyBeforeStart) <==> early && event is Body
            &&& fx.line == Some(Line::NoResponse) <==> early && event is Deadline
            &&& fx.line == Some(Line::DuplicateStart) <==> !early && event is Start
            &&& fx.line == Some(Line::TimedOut) <==> !early && event is Deadline || event == (
            Event::Reaped { ending: Ending::TimedOut }) && !x.app_logged
            &&& fx.count == Some(metrics::C_SPAWNS) <==> fx.reply is Head || fx.reap
            &&& fx.count == Some(metrics::C_APPDONE_A) <==> early && event is AppDone
            &&& fx.count == Some(metrics::C_APPDONE_PUMP) <==> !early && event is AppDone
            &&& fx.count == Some(metrics::C_APPDONE_DEADLINE) <==> !early && event is Deadline
            &&& fx.count == Some(metrics::C_APPDONE_REAPER) <==> event is Reaped
            &&& fx.time_establish <==> event is Established || event is EstablishFailed
            &&& fx.time_total <==> fx.reply is Head
        }),
{
}

/// Feeding goes on as long as each step of it says so.
pub proof fn feeding_follows_its_steps(x: Exchange, event: Event)
    requires
        x.expects(event),
    ensures
        x.next(event).0.feeding == match event {
            Event::Fed { more } => more,
            _ => x.feeding,
        },
        event is Fed ==> x.next(event).0 == (Exchange { feeding: x.next(event).0.feeding, ..x }),
{
}

/// Nothing of a body is forwarded before the head of the response was
/// returned, nor after the body was closed or the client was found gone.
pub proof fn forwards_within_the_response(is_head: bool, has_body: bool, events: Seq<Event>)
    requires
        possible(begun(is_head, has_body), events),
        events.len() > 0,
        done_on(begun(is_head, has_body), events).last().forward is Some,
    ensures
        ({
            let before = tally(done_on(begun(is_head, has_body), events.drop_last()));
            before.heads == 1 && before.closes == 0 && before.gones == 0
        }),
{
    always_kept(is_head, has_body, events);
    always_kept(is_head, has_body, events.drop_last());
}

/// An exchange that is over has one entry in the access log, unless the
/// application sent a body before the start of its response: then it has
/// none. No exchange has two.
pub proof fn one_access_entry(is_head: bool, has_body: bool, events: Seq<Event>)
    requires
        possible(begun(is_head, has_body), events),
    ensures
        ({
            let x = begun(is_head, has_body);
            tally(done_on(x, events)).entries == one_if(
                after(x, events).stage is Done && !early_body(x, events),
            )
        }),
{
    always_kept(is_head, has_body, events);
}

/// The entry of an exchange with a response shows the status that the
/// application started with and the bytes of body that it sent, a `HEAD`
/// request's included.
pub proof fn entry_shows_the_response(is_head: bool, has_body: bool, events: Seq<Event>)
    requires
        possible(begun(is_head, has_body), events),
        events.len() > 0,
        tally(done_on(begun(is_head, has_body), events)).heads == 1,
    ensures
        ({
            let x = begun(is_head, has_body);
            done_on(x, events).last().access matches Some(entry) ==> {
                &&& entry.status == after(x, events).status
                &&& entry.size == body_bytes(x, events).len()
            }
        }),
{
    always_kept(is_head, has_body, events);
    always_kept(is_head, has_body, events.drop_last());
}

/// The status of an exchange is that of the first start event, whatever
/// comes later.
pub proof fn first_start_counts(is_head: bool, has_body: bool, events: Seq<Event>, event: Event)
    requires
        possible(begun(is_head, has_body), events.push(event)),
        tally(done_on(begun(is_head, has_body), events)).heads == 1,
    ensures
        after(begun(is_head, has_body), events.push(event)).status == after(
            begun(is_head, has_body),
            events,
        ).status,
{
    assert(events.push(event).drop_last() =~= events);
    always_kept(is_head, has_body, events);
}

/// The end of the application is logged once at most, whoever sees it first:
/// the exchange or the reaper. So its traceback is printed once at most.
pub proof fn one_traceback(is_head: bool, has_body: bool, events: Seq<Event>)
    requires
        possible(begun(is_head, has_body), events),
    ensures
        ({
            let t = tally(done_on(begun(is_head, has_body), events));
            t.tracebacks <= t.app_times <= 1
        }),
{
    always_kept(is_head, has_body, events);
}

/// An application that raised is never passed over: once the exchange is over
/// and no reaper waits, its end has been logged, unless the call was never
/// set up.
pub proof fn every_end_is_logged(is_head: bool, has_body: bool, events: Seq<Event>)
    requires
        possible(begun(is_head, has_body), events),
        after(begun(is_head, has_body), events).stage is Done,
        !after(begun(is_head, has_body), events).reaping,
        events.len() > 0,
        events[0] is Established,
    ensures
        after(begun(is_head, has_body), events).app_logged,
        tally(done_on(begun(is_head, has_body), events)).app_times == 1,
{
    logged_or_reaped(is_head, has_body, events);
    always_kept(is_head, has_body, events);
}

proof fn logged_or_reaped(is_head: bool, has_body: bool, events: Seq<Event>)
    requires
        possible(begun(is_head, has_body), events),
        events.len() > 0,
        events[0] is Established,
    ensures
        ({
            let now = after(begun(is_head, has_body), events);
            &&& !(now.stage is Establish)
            &&& now.stage is Done && !now.reaping ==> now.app_logged
        }),
    decreases events.len(),
{
    let x = begun(is_head, has_body);
    if events.len() == 1 {
        assert(events.drop_last() =~= Seq::empty());
        assert(after(x, events.drop_last()) == x);
        assert(events.last() == events[0]);
    } else {
        assert(events.drop_last()[0] == events[0]);
        logged_or_reaped(is_head, has_body, events.drop_last());
        always_kept(is_head, has_body, events.drop_last());
    }
}

/// Feeding of the request's body ends for good: once it has ended, it is never
/// taken up again, so the body's end is handed over once at most.
pub proof fn feeding_never_resumes(x: Exchange, event: Event)
    requires
        x.expects(event),
        !x.feeding,
    ensures
        !x.next(event).0.feeding,
        !(event is Fed),
{
}

/// Nothing is fed for a request without a body: the application got the
/// terminal message in advance.
pub proof fn bodyless_is_never_fed(is_head: bool, events: Seq<Event>)
    requires
        possible(begun(is_head, false), events),
    ensures
        !after(begun(is_head, false), events).feeding,
        forall|i: int| 0 <= i < events.len() ==> !(#[trigger] events[i] is Fed),
    decreases events.len(),
{
    if events.len() > 0 {
        let x = begun(is_head, false);
        bodyless_is_never_fed(is_head, events.drop_last());
        feeding_never_resumes(after(x, events.drop_last()), events.last());
        assert forall|i: int| 0 <= i < events.len() implies !(#[trigger] events[i] is Fed) by {
            if i < events.len() - 1 {
                assert(events.drop_last()[i] == events[i]);
            }
        }
    }
}

/// An exchange that is over stays over.
pub proof fn done_stays_done(x: Exchange, event: Event)
    requires
        x.expects(event),
        x.stage is Done,
    ensures
        x.next(event).0.stage is Done,
        !x.next(event).0.reaping,
        x.next(event).1.reply is Nothing,
{
}

} // verus!
