//! The driver of one WebSocket connection.
//!
//! Like the HTTP exchange it is a machine: the owner of the connection reports
//! what happened and carries out what comes back, in the order in which the
//! fields of [`Effects`] are listed.

use vstd::prelude::*;
use crate::ws::{WsEvent, WsInbound};

verus! {

/// Where a connection stands.
#[derive(Debug, Clone, Copy, PartialEq, Eq, Structural)]
pub enum Stage {
    /// The call is being set up.
    Setup,
    /// The application has not accepted yet.
    Accept,
    /// Messages flow both ways.
    Open,
    /// A frame is on its way to the peer.
    Sending,
    /// The connection is over.
    Done,
}

/// What a message carries.
#[derive(Debug, PartialEq, Eq)]
pub enum Payload {
    Text(String),
    Bytes(Vec<u8>),
}

/// What happened.
#[derive(Debug)]
pub enum Event {
    SetupDone,
    SetupFailed,
    /// The application accepted.
    AppAccept,
    /// The application sent a text or a byte string.
    AppData(Payload),
    /// The application closed.
    AppClose { code: u16, reason: String },
    /// The application's end of the channel is gone.
    AppGone,
    /// The application took too long to accept.
    AcceptTimeout,
    /// The peer sent a text or a byte string.
    PeerData(Payload),
    PeerPing(Vec<u8>),
    PeerPong,
    /// The peer sent a frame of no interest.
    PeerFrame,
    /// The peer closed, with a code and a reason or without.
    PeerClose { given: Option<(u16, String)> },
    /// The peer is gone, or what it sent cannot be read.
    PeerGone,
    /// The frame went out.
    Sent,
    /// The frame did not go out.
    SendFailed,
}

/// The reason for a close.
#[derive(Debug, PartialEq, Eq)]
pub enum Reason {
    /// The reason that the side that closed gave.
    Given(String),
    Empty,
    InternalError,
    ExpectedAccept,
    AppFailed,
    AcceptTimeout,
}

/// A frame for the peer.
#[derive(Debug, PartialEq, Eq)]
pub enum Frame {
    Nothing,
    /// What the application sent.
    Data(Payload),
    /// The answer to a ping, with its payload.
    Pong(Vec<u8>),
    Close { code: u16, reason: Reason },
}

/// A message for the application.
#[derive(Debug, PartialEq, Eq)]
pub enum Feed {
    Nothing,
    Connect,
    /// What the peer sent.
    Data(Payload),
    /// The peer is gone. The reason is that of the peer's close frame, or
    /// empty.
    Disconnect { code: u16, reason: Reason },
}

/// A line for the log.
#[derive(Debug, Clone, Copy, PartialEq, Eq, Structural)]
pub enum Line {
    SetupFailed,
    NotAccepted,
    AcceptTimedOut,
}

/// What is to be done, in this order.
#[derive(Debug)]
pub struct Effects {
    pub line: Option<Line>,
    /// Watch the application's end.
    pub monitor: bool,
    pub frame: Frame,
    pub feed: Feed,
    /// From now on `send()` fails.
    pub gone: bool,
    /// Wait for the application, within limits.
    pub finish: bool,
}

/// The state of one connection.
#[derive(Debug, Clone, Copy, PartialEq, Eq, Structural)]
pub struct Driver {
    pub stage: Stage,
    /// The application has closed; only the peer's answer is waited for.
    pub app_closed: bool,
}

/// The code of a close frame after an error of the server's side.
pub const CLOSE_ERROR: u16 = 1011;

/// The code of a close frame after a clean end.
pub const CLOSE_NORMAL: u16 = 1000;

/// The code that stands for the absence of a close frame with a code.
pub const CLOSE_ABNORMAL: u16 = 1006;

/// Nothing to do.
pub open spec fn idle() -> Effects {
    Effects {
        line: None,
        monitor: false,
        frame: Frame::Nothing,
        feed: Feed::Nothing,
        gone: false,
        finish: false,
    }
}

impl Effects {
    fn none() -> (r: Effects)
        ensures
            r == idle(),
    {
        Effects {
            line: None,
            monitor: false,
            frame: Frame::Nothing,
            feed: Feed::Nothing,
            gone: false,
            finish: false,
        }
    }
}

/// A connection at its beginning.
pub open spec fn begun() -> Driver {
    Driver { stage: Stage::Setup, app_closed: false }
}

impl Driver {
    /// Whether an event can happen in this state.
    pub open spec fn expects(self, event: Event) -> bool {
        match event {
            Event::SetupDone | Event::SetupFailed => self.stage is Setup,
            Event::AppAccept | Event::AppData(_) | Event::AppClose { .. } | Event::AppGone =>
                self.stage is Accept || self.stage is Open && !self.app_closed,
            Event::AcceptTimeout => self.stage is Accept,
            Event::PeerData(_) | Event::PeerPing(_) | Event::PeerPong | Event::PeerFrame
            | Event::PeerClose { .. } | Event::PeerGone => self.stage is Open,
            Event::Sent | Event::SendFailed => self.stage is Sending,
        }
    }

    /// The end of a connection that the application refused or never accepted:
    /// it is closed, and `send()` fails from now on.
    pub open spec fn refused(self, code: u16, reason: Reason, finish: bool) -> (Driver, Effects) {
        (
            Driver { stage: Stage::Done, ..self },
            Effects { frame: Frame::Close { code, reason }, gone: true, finish, ..idle() },
        )
    }

    /// The end of a connection that was open.
    pub open spec fn ended(self, fx: Effects) -> (Driver, Effects) {
        (Driver { stage: Stage::Done, ..self }, Effects { gone: true, finish: true, ..fx })
    }

    /// The state after an event, and what is to be done.
    pub open spec fn next(self, event: Event) -> (Driver, Effects) {
        match event {
            Event::SetupDone => (
                Driver { stage: Stage::Accept, ..self },
                Effects { monitor: true, feed: Feed::Connect, ..idle() },
            ),
            Event::SetupFailed => {
                let out = self.refused(CLOSE_ERROR, Reason::InternalError, false);
                (out.0, Effects { line: Some(Line::SetupFailed), ..out.1 })
            },
            Event::AppAccept => (Driver { stage: Stage::Open, ..self }, idle()),
            Event::AppData(payload) => if self.stage is Accept {
                let out = self.refused(CLOSE_ERROR, Reason::ExpectedAccept, true);
                (out.0, Effects { line: Some(Line::NotAccepted), ..out.1 })
            } else {
                (
                    Driver { stage: Stage::Sending, ..self },
                    Effects { frame: Frame::Data(payload), ..idle() },
                )
            },
            Event::AppClose { code, reason } => if self.stage is Accept {
                self.refused(code, Reason::Given(reason), true)
            } else {
                (
                    Driver { app_closed: true, ..self },
                    Effects {
                        frame: Frame::Close { code, reason: Reason::Given(reason) },
                        gone: true,
                        ..idle()
                    },
                )
            },
            Event::AppGone => if self.stage is Accept {
                self.refused(CLOSE_ERROR, Reason::AppFailed, false)
            } else {
                self.ended(
                    Effects {
                        frame: Frame::Close { code: CLOSE_NORMAL, reason: Reason::Empty },
                        ..idle()
                    },
                )
            },
            Event::AcceptTimeout => {
                let out = self.refused(CLOSE_ERROR, Reason::AcceptTimeout, true);
                (out.0, Effects { line: Some(Line::AcceptTimedOut), ..out.1 })
            },
            Event::PeerData(payload) => (self, Effects { feed: Feed::Data(payload), ..idle() }),
            Event::PeerPing(payload) => (
                Driver { stage: Stage::Sending, ..self },
                Effects { frame: Frame::Pong(payload), ..idle() },
            ),
            Event::PeerPong | Event::PeerFrame => (self, idle()),
            Event::PeerClose { given } => {
                let (n, reason) = match given {
                    Some(g) => (g.0, Reason::Given(g.1)),
                    None => (CLOSE_ABNORMAL, Reason::Empty),
                };
                self.ended(
                    Effects {
                        frame: if self.app_closed {
                            Frame::Nothing
                        } else {
                            Frame::Close { code: n, reason: Reason::Empty }
                        },
                        feed: Feed::Disconnect { code: n, reason },
                        ..idle()
                    },
                )
            },
            Event::PeerGone => self.ended(
                Effects {
                    feed: Feed::Disconnect { code: CLOSE_ABNORMAL, reason: Reason::Empty },
                    ..idle()
                },
            ),
            Event::Sent => (Driver { stage: Stage::Open, ..self }, idle()),
            Event::SendFailed => self.ended(idle()),
        }
    }

    /// A new connection: the call is about to be set up.
    pub fn new() -> (r: Driver)
        ensures
            r == begun(),
    {
        Driver { stage: Stage::Setup, app_closed: false }
    }

    fn refuse(&mut self, code: u16, reason: Reason, finish: bool) -> (r: Effects)
        ensures
            (*final(self), r) == old(self).refused(code, reason, finish),
    {
        self.stage = Stage::Done;
        let mut fx = Effects::none();
        fx.frame = Frame::Close { code, reason };
        fx.gone = true;
        fx.finish = finish;
        fx
    }

    fn end(&mut self, fx: Effects) -> (r: Effects)
        ensures
            (*final(self), r) == old(self).ended(fx),
    {
        self.stage = Stage::Done;
        let mut out = fx;
        out.gone = true;
        out.finish = true;
        out
    }

    /// Takes one event, and tells what is to be done.
    pub fn step(&mut self, event: Event) -> (r: Effects)
        requires
            old(self).expects(event),
        ensures
            (*final(self), r) == old(self).next(event),
    {
        let mut fx = Effects::none();
        let accepting = matches!(self.stage, Stage::Accept);
        match event {
            Event::SetupDone => {
                self.stage = Stage::Accept;
                fx.monitor = true;
                fx.feed = Feed::Connect;
                fx
            },
            Event::SetupFailed => {
                let mut out = self.refuse(CLOSE_ERROR, Reason::InternalError, false);
                out.line = Some(Line::SetupFailed);
                out
            },
            Event::AppAccept => {
                self.stage = Stage::Open;
                fx
            },
            Event::AppData(payload) => {
                if accepting {
                    let mut out = self.refuse(CLOSE_ERROR, Reason::ExpectedAccept, true);
                    out.line = Some(Line::NotAccepted);
                    out
                } else {
                    self.stage = Stage::Sending;
                    fx.frame = Frame::Data(payload);
                    fx
                }
            },
            Event::AppClose { code, reason } => {
                if accepting {
                    self.refuse(code, Reason::Given(reason), true)
                } else {
                    self.app_closed = true;
                    fx.frame = Frame::Close { code, reason: Reason::Given(reason) };
                    fx.gone = true;
                    fx
                }
            },
            Event::AppGone => {
                if accepting {
                    self.refuse(CLOSE_ERROR, Reason::AppFailed, false)
                } else {
                    fx.frame = Frame::Close { code: CLOSE_NORMAL, reason: Reason::Empty };
                    self.end(fx)
                }
            },
            Event::AcceptTimeout => {
                let mut out = self.refuse(CLOSE_ERROR, Reason::AcceptTimeout, true);
                out.line = Some(Line::AcceptTimedOut);
                out
            },
            Event::PeerData(payload) => {
                fx.feed = Feed::Data(payload);
                fx
            },
            Event::PeerPing(payload) => {
                self.stage = Stage::Sending;
                fx.frame = Frame::Pong(payload);
                fx
            },
            Event::PeerPong | Event::PeerFrame => fx,
            Event::PeerClose { given } => {
                let (n, reason): (u16, Reason) = match given {
                    Some((c, text)) => (c, Reason::Given(text)),
                    None => (CLOSE_ABNORMAL, Reason::Empty),
                };
                if !self.app_closed {
                    fx.frame = Frame::Close { code: n, reason: Reason::Empty };
                }
                fx.feed = Feed::Disconnect { code: n, reason };
                self.end(fx)
            },
            Event::PeerGone => {
                fx.feed = Feed::Disconnect { code: CLOSE_ABNORMAL, reason: Reason::Empty };
                self.end(fx)
            },
            Event::Sent => {
                self.stage = Stage::Open;
                fx
            },
            Event::SendFailed => self.end(fx),
        }
    }
}

impl Event {
    /// What an event of the application is to the driver. Nothing stands for
    /// the end of the channel.
    pub fn of_app(event: Option<WsEvent>) -> (r: Event)
        ensures
            r == match event {
                Some(WsEvent::Accept) => Event::AppAccept,
                Some(WsEvent::SendText(s)) => Event::AppData(Payload::Text(s)),
                Some(WsEvent::SendBytes(b)) => Event::AppData(Payload::Bytes(b)),
                Some(WsEvent::Close { code, reason }) => Event::AppClose { code, reason },
                None => Event::AppGone,
            },
    {
        match event {
            Some(WsEvent::Accept) => Event::AppAccept,
            Some(WsEvent::SendText(s)) => Event::AppData(Payload::Text(s)),
            Some(WsEvent::SendBytes(b)) => Event::AppData(Payload::Bytes(b)),
            Some(WsEvent::Close { code, reason }) => Event::AppClose { code, reason },
            None => Event::AppGone,
        }
    }
}

impl Feed {
    /// What the application is told, if anything.
    pub fn inbound(self) -> (r: Option<WsInbound>)
        ensures
            match self {
                Feed::Nothing => r is None,
                Feed::Connect => r == Some(WsInbound::Connect),
                Feed::Data(Payload::Text(s)) => r == Some(WsInbound::Text(s)),
                Feed::Data(Payload::Bytes(b)) => r == Some(WsInbound::Bytes(b)),
                Feed::Disconnect { code, reason } => {
                    &&& r matches Some(WsInbound::Disconnect { code: c, reason: t })
                    &&& c == code
                    &&& t@ == reason.spec_text()
                },
            },
    {
        match self {
            Feed::Nothing => None,
            Feed::Connect => Some(WsInbound::Connect),
            Feed::Data(Payload::Text(s)) => Some(WsInbound::Text(s)),
            Feed::Data(Payload::Bytes(b)) => Some(WsInbound::Bytes(b)),
            Feed::Disconnect { code, reason } => Some(
                WsInbound::Disconnect { code, reason: reason.text().to_string() },
            ),
        }
    }
}

impl Reason {
    /// The text of this reason.
    pub open spec fn spec_text(self) -> Seq<char> {
        match self {
            Reason::Given(s) => s@,
            Reason::Empty => ""@,
            Reason::InternalError => "internal error"@,
            Reason::ExpectedAccept => "expected accept"@,
            Reason::AppFailed => "app failed"@,
            Reason::AcceptTimeout => "accept timeout"@,
        }
    }

    /// The text of this reason.
    pub fn text(&self) -> (r: &str)
        ensures
            r@ == self.spec_text(),
    {
        match self {
            Reason::Given(s) => s.as_str(),
            Reason::Empty => "",
            Reason::InternalError => "internal error",
            Reason::ExpectedAccept => "expected accept",
            Reason::AppFailed => "app failed",
            Reason::AcceptTimeout => "accept timeout",
        }
    }
}

impl Line {
    /// The text of this line.
    pub open spec fn spec_text(self) -> Seq<char> {
        match self {
            Line::SetupFailed => "ERROR rustwasgi: "@,
            Line::NotAccepted => "ERROR rustwasgi: app must accept websocket before sending"@,
            Line::AcceptTimedOut => "ERROR rustwasgi: websocket accept timed out"@,
        }
    }

    /// The text of this line; that of a failed set-up is followed by what
    /// went wrong.
    pub fn text(self) -> (r: &'static str)
        ensures
            r@ == self.spec_text(),
    {
        match self {
            Line::SetupFailed => "ERROR rustwasgi: ",
            Line::NotAccepted => "ERROR rustwasgi: app must accept websocket before sending",
            Line::AcceptTimedOut => "ERROR rustwasgi: websocket accept timed out",
        }
    }
}

/// Whether a series of events can happen, one after the other.
pub open spec fn possible(events: Seq<Event>) -> bool
    decreases events.len(),
{
    events.len() == 0 || {
        &&& possible(events.drop_last())
        &&& after(events.drop_last()).expects(events.last())
    }
}

/// The state after a series of events.
pub open spec fn after(events: Seq<Event>) -> Driver
    decreases events.len(),
{
    if events.len() == 0 {
        begun()
    } else {
        after(events.drop_last()).next(events.last()).0
    }
}

/// What was done on the last event of a series.
pub open spec fn last_done(events: Seq<Event>) -> Effects {
    after(events.drop_last()).next(events.last()).1
}

/// How often each thing was done.
pub struct Tally {
    pub accepts: nat,
    pub data: nat,
    pub closes: nat,
    pub connects: nat,
    pub fed: nat,
    pub disconnects: nat,
    pub gones: nat,
    pub finishes: nat,
}

pub open spec fn one_if(b: bool) -> nat {
    if b {
        1
    } else {
        0
    }
}

/// How often each thing was done on a series of events.
pub open spec fn tally(events: Seq<Event>) -> Tally
    decreases events.len(),
{
    if events.len() == 0 {
        Tally {
            accepts: 0,
            data: 0,
            closes: 0,
            connects: 0,
            fed: 0,
            disconnects: 0,
            gones: 0,
            finishes: 0,
        }
    } else {
        let t = tally(events.drop_last());
        let fx = last_done(events);
        Tally {
            accepts: t.accepts + one_if(events.last() is AppAccept),
            data: t.data + one_if(fx.frame is Data),
            closes: t.closes + one_if(fx.frame is Close),
            connects: t.connects + one_if(fx.feed is Connect),
            fed: t.fed + one_if(fx.feed is Data),
            disconnects: t.disconnects + one_if(fx.feed is Disconnect),
            gones: t.gones + one_if(fx.gone),
            finishes: t.finishes + one_if(fx.finish),
        }
    }
}

/// What holds after every series of events.
spec fn sound(now: Driver, t: Tally) -> bool {
    let accepted = now.stage is Open || now.stage is Sending;
    &&& t.connects <= 1
    &&& now.stage is Setup ==> t.connects == 0
    &&& now.stage is Accept || accepted ==> t.connects == 1
    &&& t.connects == 0 ==> t.fed == 0 && t.disconnects == 0
    &&& now.stage is Setup || now.stage is Accept ==> t.accepts == 0
    &&& accepted ==> t.accepts >= 1
    &&& t.accepts == 0 ==> t.data == 0 && t.fed == 0 && t.disconnects == 0
    &&& now.app_closed ==> t.accepts >= 1 && t.closes == 1
    &&& t.closes <= 1
    &&& now.stage is Done && t.accepts == 0 ==> t.closes == 1
    &&& !(now.stage is Done) ==> t.closes == one_if(now.app_closed)
    &&& t.disconnects <= one_if(now.stage is Done)
    &&& t.gones >= 1 <==> now.stage is Done || now.app_closed
    &&& t.finishes <= one_if(now.stage is Done)
    &&& t.accepts >= 1 ==> t.finishes == one_if(now.stage is Done)
}

proof fn always_sound(events: Seq<Event>)
    requires
        possible(events),
    ensures
        sound(after(events), tally(events)),
    decreases events.len(),
{
    if events.len() > 0 {
        always_sound(events.drop_last());
    }
}

/// At most one close frame is ever sent, whichever side closes first.
pub proof fn one_close_frame(events: Seq<Event>)
    requires
        possible(events),
    ensures
        tally(events).closes <= 1,
{
    always_sound(events);
}

/// A connection that ends without having been accepted is closed by exactly
/// one close frame.
pub proof fn refusal_closes(events: Seq<Event>)
    requires
        possible(events),
        after(events).stage is Done,
        tally(events).accepts == 0,
    ensures
        tally(events).closes == 1,
        tally(events).data == 0,
{
    always_sound(events);
}

/// Nothing that the application sends reaches the peer before the application
/// has accepted, nor after it has closed.
pub proof fn data_between_accept_and_close(events: Seq<Event>)
    requires
        possible(events),
        events.len() > 0,
        last_done(events).frame is Data,
    ensures
        tally(events.drop_last()).accepts >= 1,
        tally(events.drop_last()).closes == 0,
{
    always_sound(events.drop_last());
}

/// The application is told of the connection once, before anything else, and
/// of its end once at most, after everything else.
pub proof fn connect_first_disconnect_last(events: Seq<Event>)
    requires
        possible(events),
        events.len() > 0,
    ensures
        tally(events).connects <= 1,
        tally(events).disconnects <= 1,
        last_done(events).feed is Data || last_done(events).feed is Disconnect ==> tally(
            events.drop_last(),
        ).connects == 1 && tally(events.drop_last()).disconnects == 0,
{
    always_sound(events);
    always_sound(events.drop_last());
}

/// Once a connection is open, every message passes as it is, each in a step of
/// its own: what the peer sends to the application, and what the application
/// sends to the peer. Nothing else does.
pub proof fn messages_pass(x: Driver, event: Event)
    requires
        x.expects(event),
    ensures
        match event {
            Event::PeerData(payload) => x.next(event).1.feed == Feed::Data(payload),
            _ => !(x.next(event).1.feed is Data),
        },
        match event {
            Event::AppData(payload) => if x.stage is Open {
                x.next(event).1.frame == Frame::Data(payload)
            } else {
                !(x.next(event).1.frame is Data)
            },
            _ => !(x.next(event).1.frame is Data),
        },
{
}

/// What the peer sent, in order.
pub open spec fn peer_sent(events: Seq<Event>) -> Seq<Payload>
    decreases events.len(),
{
    if events.len() == 0 {
        Seq::empty()
    } else {
        let rest = peer_sent(events.drop_last());
        match events.last() {
            Event::PeerData(payload) => rest.push(payload),
            _ => rest,
        }
    }
}

/// What the application sent over the open connection, in order.
pub open spec fn app_sent(events: Seq<Event>) -> Seq<Payload>
    decreases events.len(),
{
    if events.len() == 0 {
        Seq::empty()
    } else {
        let rest = app_sent(events.drop_last());
        match events.last() {
            Event::AppData(payload) => if after(events.drop_last()).stage is Open {
                rest.push(payload)
            } else {
                rest
            },
            _ => rest,
        }
    }
}

/// What was fed to the application on a series of events, in order.
pub open spec fn app_fed(events: Seq<Event>) -> Seq<Payload>
    decreases events.len(),
{
    if events.len() == 0 {
        Seq::empty()
    } else {
        let rest = app_fed(events.drop_last());
        match last_done(events).feed {
            Feed::Data(payload) => rest.push(payload),
            _ => rest,
        }
    }
}

/// What was framed for the peer on a series of events, in order.
pub open spec fn peer_framed(events: Seq<Event>) -> Seq<Payload>
    decreases events.len(),
{
    if events.len() == 0 {
        Seq::empty()
    } else {
        let rest = peer_framed(events.drop_last());
        match last_done(events).frame {
            Frame::Data(payload) => rest.push(payload),
            _ => rest,
        }
    }
}

/// Messages pass unchanged, in order, none twice and none left out: the
/// application is fed what the peer sent, and the peer gets what the
/// application sent over the open connection.
pub proof fn messages_keep_order(events: Seq<Event>)
    requires
        possible(events),
    ensures
        app_fed(events) == peer_sent(events),
        peer_framed(events) == app_sent(events),
    decreases events.len(),
{
    if events.len() > 0 {
        messages_keep_order(events.drop_last());
        messages_pass(after(events.drop_last()), events.last());
    }
}

/// A ping is answered by a pong with the same payload, and neither ping nor
/// pong is shown to the application.
pub proof fn pings_stay_below(x: Driver, event: Event)
    requires
        x.expects(event),
    ensures
        match event {
            Event::PeerPing(payload) => x.next(event).1.frame == Frame::Pong(payload),
            _ => !(x.next(event).1.frame is Pong),
        },
        event is PeerPing || event is PeerPong || event is PeerFrame ==> x.next(event).1.feed
            is Nothing,
{
}

/// A close passes with its code and its reason: that of the application to the
/// peer, and that of the peer to the application.
pub proof fn closes_pass(x: Driver, event: Event)
    requires
        x.expects(event),
    ensures
        event matches Event::AppClose { code, reason } ==> x.next(event).1.frame == (Frame::Close {
            code,
            reason: Reason::Given(reason),
        }),
        event matches Event::PeerClose { given: Some(g) } ==> x.next(event).1.feed
            == (Feed::Disconnect { code: g.0, reason: Reason::Given(g.1) }),
{
}

/// The state after each event. Before the application has accepted, anything
/// else that it does ends the connection; once it has, only its return, the
/// peer's close or loss, or a frame that did not go out do.
pub proof fn stages_follow_the_events(x: Driver, event: Event)
    requires
        x.expects(event),
    ensures
        ({
            let now = x.next(event).0;
            let waiting = x.stage is Accept;
            &&& now.stage is Accept <==> event is SetupDone
            &&& now.stage is Done <==> {
                ||| event is SetupFailed || event is AcceptTimeout || event is AppGone
                ||| event is PeerClose || event is PeerGone || event is SendFailed
                ||| waiting && (event is AppData || event is AppClose)
            }
            &&& now.stage is Sending <==> event is PeerPing || event is AppData && !waiting
            &&& event is AppAccept ==> now.stage is Open
            &&& event is Sent ==> now.stage is Open
            &&& now.app_closed <==> x.app_closed || event is AppClose && !waiting
        }),
{
}

/// When each event can happen: the application's until it has closed, the
/// peer's while the connection is open, and the word on a frame while it is on
/// its way. So no message is left lying while the connection is open.
pub proof fn events_are_taken(payload: Payload, ping: Vec<u8>, x: Driver)
    ensures
        x.stage is Open ==> x.expects(Event::PeerData(payload)) && x.expects(Event::PeerPing(ping))
            && x.expects(Event::PeerGone),
        x.stage is Open && !x.app_closed ==> x.expects(Event::AppData(payload)) && x.expects(
            Event::AppGone,
        ),
        x.stage is Accept ==> x.expects(Event::AppAccept) && x.expects(Event::AcceptTimeout)
            && x.expects(Event::AppData(payload)),
        x.stage is Sending ==> x.expects(Event::Sent) && x.expects(Event::SendFailed),
        x.app_closed ==> !x.expects(Event::AppData(payload)) || x.stage is Accept,
{
}

/// A connection is closed with the code that fits: the application's own, 1000
/// where it returned, that of the peer in answer to its close, and 1011 where
/// the server's side failed or the application never accepted.
pub proof fn close_codes_fit(x: Driver, event: Event)
    requires
        x.expects(event),
    ensures
        x.next(event).1.frame is Close <==> {
            ||| event is SetupFailed || event is AcceptTimeout || event is AppClose
            ||| event is AppGone || x.stage is Accept && event is AppData
            ||| event is PeerClose && !x.app_closed
        },
        x.next(event).1.frame matches Frame::Close { code, reason } ==> code == match event {
            Event::AppClose { code: given, .. } => given,
            Event::PeerClose { given: Some(g) } => g.0,
            Event::PeerClose { given: None } => 1006,
            Event::AppGone => if x.stage is Accept {
                1011
            } else {
                1000
            },
            _ => 1011,
        },
        x.next(event).1.frame matches Frame::Close { code, reason } ==> (event is PeerClose
            || event is AppGone && x.stage is Open ==> reason is Empty),
{
}

/// A connection that is turned down is told why: the set-up failed, the
/// application failed, sent before it accepted or took too long, or gave its own
/// reason. The log tells of all but the last and of an application that failed.
pub proof fn close_reasons_fit(x: Driver, event: Event)
    requires
        x.expects(event),
    ensures
        x.next(event).1.frame matches Frame::Close { reason, .. } ==> {
            &&& event is SetupFailed ==> reason is InternalError
            &&& event is AcceptTimeout ==> reason is AcceptTimeout
            &&& event is AppData ==> reason is ExpectedAccept
            &&& event is AppGone && x.stage is Accept ==> reason is AppFailed
            &&& event is AppClose ==> reason == Reason::Given(event->AppClose_reason)
        },
        x.next(event).1.line == match event {
            Event::SetupFailed => Some(Line::SetupFailed),
            Event::AcceptTimeout => Some(Line::AcceptTimedOut),
            Event::AppData(_) => if x.stage is Accept {
                Some(Line::NotAccepted)
            } else {
                None
            },
            _ => None,
        },
{
}

/// The application learns of the end where the peer caused it: with the peer's
/// code, or with 1006 where there was none.
pub proof fn disconnect_codes_fit(x: Driver, event: Event)
    requires
        x.expects(event),
    ensures
        x.next(event).1.feed is Disconnect <==> event is PeerClose || event is PeerGone,
        x.next(event).1.feed is Connect <==> event is SetupDone,
        x.next(event).1.feed matches Feed::Disconnect { code, reason } ==> code == match event {
            Event::PeerClose { given: Some(g) } => g.0,
            _ => 1006,
        },
        x.next(event).1.feed matches Feed::Disconnect { code, reason } ==> (reason is Empty <==> !(
        event is PeerClose && event->given is Some)),
{
}

/// From when on `send()` fails, when the application is waited for, and what
/// is logged.
pub proof fn ends_are_wound_up(x: Driver, event: Event)
    requires
        x.expects(event),
    ensures
        ({
            let fx = x.next(event).1;
            let over = x.next(event).0.stage is Done;
            &&& fx.gone <==> over || event is AppClose
            &&& fx.finish <==> over && !(event is SetupFailed) && !(event is AppGone
                && x.stage is Accept)
            &&& fx.monitor <==> event is SetupDone
            &&& fx.line == Some(Line::SetupFailed) <==> event is SetupFailed
            &&& fx.line == Some(Line::NotAccepted) <==> event is AppData && x.stage is Accept
            &&& fx.line == Some(Line::AcceptTimedOut) <==> event is AcceptTimeout
        }),
{
}

/// A connection that was accepted has waited for the application exactly once
/// when it is over, and never before.
pub proof fn accepted_ends_once(events: Seq<Event>)
    requires
        possible(events),
        tally(events).accepts >= 1,
    ensures
        tally(events).finishes == one_if(after(events).stage is Done),
{
    always_sound(events);
}

/// `send()` fails once a close frame was sent or the connection is over, and
/// not before.
pub proof fn send_fails_after_close(events: Seq<Event>)
    requires
        possible(events),
    ensures
        tally(events).gones >= 1 <==> tally(events).closes >= 1 || after(events).stage is Done,
{
    always_sound(events);
}

/// A connection that is over stays over: no event can follow.
pub proof fn done_is_the_end(x: Driver, event: Event)
    requires
        x.stage is Done,
    ensures
        !x.expects(event),
{
}

} // verus!
