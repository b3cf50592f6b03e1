//! When a worker stops: signals, heartbeats, the quota of requests, and the
//! drain of what is in flight.

use vstd::prelude::*;
use crate::server;
use crate::server::{status_response, PlainResponse};
use crate::text;
use crate::text::{cat, to_decimal};

verus! {

/// How a worker is to stop.
#[derive(Debug, Clone, Copy, PartialEq, Eq, Structural)]
pub enum ShutdownKind {
    /// What is in flight may finish, within limits.
    Graceful,
    /// At once.
    Quick,
}

/// Whether a worker is to stop, and how.
#[derive(Debug, Clone, Copy, PartialEq, Eq, Structural)]
pub struct Shutdown {
    pub flag: bool,
    pub quick: bool,
}

impl Shutdown {
    /// The state after a trigger.
    pub open spec fn triggered(self, kind: ShutdownKind) -> Shutdown {
        Shutdown { flag: true, quick: self.quick || kind is Quick }
    }

    pub fn new() -> (r: Shutdown)
        ensures
            r == (Shutdown { flag: false, quick: false }),
    {
        Shutdown { flag: false, quick: false }
    }

    /// Asks the worker to stop. The result tells whether those who wait for
    /// that are to be woken: they are on the first trigger.
    pub fn trigger(&mut self, kind: ShutdownKind) -> (r: bool)
        ensures
            *final(self) == old(self).triggered(kind),
            r == !old(self).flag,
    {
        if let ShutdownKind::Quick = kind {
            self.quick = true;
        }
        let first = !self.flag;
        self.flag = true;
        first
    }

    /// Whether the worker is to stop.
    pub fn is_set(&self) -> (r: bool)
        ensures
            r == self.flag,
    {
        self.flag
    }

    /// How the worker is to stop.
    pub fn kind(&self) -> (r: ShutdownKind)
        ensures
            r == if self.quick {
                ShutdownKind::Quick
            } else {
                ShutdownKind::Graceful
            },
    {
        if self.quick {
            ShutdownKind::Quick
        } else {
            ShutdownKind::Graceful
        }
    }
}

/// The state after a series of triggers.
pub open spec fn after_triggers(s: Shutdown, kinds: Seq<ShutdownKind>) -> Shutdown
    decreases kinds.len(),
{
    if kinds.len() == 0 {
        s
    } else {
        after_triggers(s, kinds.drop_last()).triggered(kinds.last())
    }
}

/// How often those who wait were woken by a series of triggers.
pub open spec fn wake_ups(s: Shutdown, kinds: Seq<ShutdownKind>) -> nat
    decreases kinds.len(),
{
    if kinds.len() == 0 {
        0
    } else {
        wake_ups(s, kinds.drop_last()) + if after_triggers(s, kinds.drop_last()).flag {
            0nat
        } else {
            1nat
        }
    }
}

/// However often a worker is asked to stop, and by whom: it stays asked, those
/// who wait are woken exactly once, and it stops quickly if and only if one of
/// the triggers was quick.
pub proof fn triggers_add_up(kinds: Seq<ShutdownKind>)
    ensures
        ({
            let fresh = Shutdown { flag: false, quick: false };
            let now = after_triggers(fresh, kinds);
            &&& now.flag == (kinds.len() > 0)
            &&& now.quick == kinds.contains(ShutdownKind::Quick)
            &&& wake_ups(fresh, kinds) == if kinds.len() > 0 {
                1nat
            } else {
                0nat
            }
        }),
    decreases kinds.len(),
{
    if kinds.len() > 0 {
        triggers_add_up(kinds.drop_last());
        let shorter = kinds.drop_last();
        let q = ShutdownKind::Quick;
        assert(kinds =~= shorter.push(kinds.last()));
        if shorter.contains(q) {
            let i = choose|i: int| 0 <= i < shorter.len() && shorter[i] == q;
            assert(kinds[i] == q);
        }
        if kinds.contains(q) && kinds.last() != q {
            let i = choose|i: int| 0 <= i < kinds.len() && kinds[i] == q;
            assert(shorter[i] == q);
        }
        if kinds.last() == q {
            assert(kinds[kinds.len() - 1] == q);
        }
    }
}

/// What a request on an open connection is told before it is looked at: `503`
/// once the worker is to stop.
pub fn turn_away(shutdown: &Shutdown) -> (r: Option<PlainResponse>)
    ensures
        r is Some <==> shutdown.flag,
        r matches Some(response) ==> {
            &&& response.status == 503
            &&& response.body@ == "Server shutting down"@ + "\n"@
            &&& server::text_pairs(response.headers@) == server::text_headers(response.body@)
        },
{
    if shutdown.is_set() {
        Some(status_response(503, "Server shutting down"))
    } else {
        None
    }
}

/// What an acceptor does next: it accepts, unless the worker is to stop.
pub fn keeps_accepting(shutdown: &Shutdown) -> (r: bool)
    ensures
        r == !shutdown.flag,
{
    !shutdown.is_set()
}

/// The client of a connection over a Unix socket: its path where it has one,
/// and port 0.
pub fn unix_client(path: Option<String>) -> (r: (String, u16))
    ensures
        r.0@ == match path {
            Some(p) => p@,
            None => Seq::empty(),
        },
        r.1 == 0,
{
    match path {
        Some(p) => (p, 0),
        None => (String::new(), 0),
    }
}

/// The line that announces a listener.
pub fn listening_line(description: &str) -> (r: String)
    ensures
        r@ == "INFO rustwasgi: listening on "@ + description@,
{
    cat("INFO rustwasgi: listening on ", description)
}

/// The line that announces a worker.
pub fn serving_line(app_spec: &str, pid: u32) -> (r: String)
    ensures
        r@ == "INFO rustwasgi: worker serving "@ + app_spec@ + " (pid="@ + text::decimal(
            pid as nat,
        ) + ")"@,
{
    let a = cat("INFO rustwasgi: worker serving ", app_spec);
    let b = cat(a.as_str(), " (pid=");
    let c = cat(b.as_str(), to_decimal(pid as u64).as_str());
    cat(c.as_str(), ")")
}

/// The line for a connection that could not be accepted; accepting goes on.
pub fn accept_error_line(description: &str, error: &str) -> (r: String)
    ensures
        r@ == "WARN rustwasgi: accept error on "@ + description@ + ": "@ + error@,
{
    let a = cat("WARN rustwasgi: accept error on ", description);
    let b = cat(a.as_str(), ": ");
    cat(b.as_str(), error)
}

/// The count of requests and the state of the shutdown after one more request.
/// A quota of zero never runs out.
pub open spec fn after_request(completed: nat, max_requests: nat, s: Shutdown) -> (nat, Shutdown) {
    (
        completed + 1,
        if max_requests > 0 && completed + 1 >= max_requests {
            s.triggered(ShutdownKind::Graceful)
        } else {
            s
        },
    )
}

/// The count of requests and the state of the shutdown after some requests of
/// a fresh worker.
pub open spec fn after_requests(max_requests: nat, n: nat) -> (nat, Shutdown)
    decreases n,
{
    if n == 0 {
        (0, Shutdown { flag: false, quick: false })
    } else {
        let before = after_requests(max_requests, (n - 1) as nat);
        after_request(before.0, max_requests, before.1)
    }
}

/// Left to its requests, a worker stops exactly when its quota is reached, and
/// then gracefully; without a quota it never does.
pub proof fn quota_stops_the_worker(max_requests: nat, n: nat)
    ensures
        after_requests(max_requests, n).0 == n,
        after_requests(max_requests, n).1.flag == (max_requests > 0 && n >= max_requests),
        !after_requests(max_requests, n).1.quick,
    decreases n,
{
    if n > 0 {
        quota_stops_the_worker(max_requests, (n - 1) as nat);
    }
}

/// Counts a request that is done, and tells whether that was the last one of
/// the quota: the worker is then to stop. A quota of zero never runs out.
pub fn request_done(completed: &mut usize, max_requests: usize, shutdown: &mut Shutdown) -> (r:
    Option<bool>)
    requires
        *old(completed) < usize::MAX,
    ensures
        (*final(completed) as nat, *final(shutdown)) == after_request(
            *old(completed) as nat,
            max_requests as nat,
            *old(shutdown),
        ),
        r is Some <==> max_requests > 0 && *final(completed) >= max_requests,
        r matches Some(wake) ==> wake == !old(shutdown).flag,
{
    *completed = *completed + 1;
    if max_requests > 0 && *completed >= max_requests {
        Some(shutdown.trigger(ShutdownKind::Graceful))
    } else {
        None
    }
}

/// The line that announces the end of the quota.
pub fn quota_line(done: usize) -> (r: String)
    ensures
        r@ == "INFO rustwasgi: max_requests reached ("@ + text::decimal(done as nat)
            + "); recycling worker"@,
{
    let head = cat("INFO rustwasgi: max_requests reached (", to_decimal(done as u64).as_str());
    cat(head.as_str(), "); recycling worker")
}

/// The seconds that a connection may take to send the head of a request,
/// where they are limited.
pub fn connection_builder(keep_alive_secs: u64) -> (r: Option<u64>)
    ensures
        r == if keep_alive_secs > 0 {
            Some(keep_alive_secs)
        } else {
            None
        },
{
    if keep_alive_secs > 0 {
        Some(keep_alive_secs)
    } else {
        None
    }
}

/// What the watcher of signals saw.
#[derive(Debug, Clone, Copy, PartialEq, Eq, Structural)]
pub enum Signal {
    Terminate,
    Quit,
    Interrupt,
    /// The worker has stopped serving.
    Served,
}

/// The watcher of signals: whether it has asked the worker to stop.
#[derive(Debug, Clone, Copy, PartialEq, Eq, Structural)]
pub struct Watcher {
    pub triggered: bool,
}

impl Watcher {
    /// Whether the watcher listens to a signal: to `Terminate` until it has
    /// asked the worker to stop, to the others always.
    pub open spec fn listens(self, signal: Signal) -> bool {
        signal is Terminate ==> !self.triggered
    }

    /// How a signal stops the worker.
    pub open spec fn asks(self, signal: Signal) -> Option<ShutdownKind> {
        match signal {
            Signal::Terminate => Some(ShutdownKind::Graceful),
            Signal::Quit | Signal::Interrupt => Some(ShutdownKind::Quick),
            Signal::Served => None,
        }
    }

    pub fn new() -> (r: Watcher)
        ensures
            !r.triggered,
    {
        Watcher { triggered: false }
    }

    /// Takes a signal; `served` tells whether the worker has stopped serving.
    /// The first result is how the worker is to stop, the second whether
    /// watching goes on: it ends with the second signal that counts, or with
    /// the worker.
    pub fn watch_signals(&mut self, signal: Signal, served: bool) -> (r: (
        Option<ShutdownKind>,
        bool,
    ))
        requires
            old(self).listens(signal),
        ensures
            r.0 == old(self).asks(signal),
            r.1 == (!served && !(signal is Served) && !old(self).triggered),
            final(self).triggered == (old(self).triggered || !(signal is Served)),
    {
        match signal {
            Signal::Terminate => {
                self.triggered = true;
                (Some(ShutdownKind::Graceful), !served)
            },
            Signal::Quit | Signal::Interrupt => {
                if self.triggered {
                    (Some(ShutdownKind::Quick), false)
                } else {
                    self.triggered = true;
                    (Some(ShutdownKind::Quick), !served)
                }
            },
            Signal::Served => (None, false),
        }
    }
}

/// What a tick of the heartbeat calls for.
#[derive(Debug, Clone, Copy, PartialEq, Eq, Structural)]
pub enum Beat {
    /// The worker is to stop anyway: no more ticks.
    Stop,
    /// The parent process has changed: the worker stops quickly.
    Orphaned,
    /// The supervisor is to be notified, and asked whether the worker is alive.
    Ask,
    /// The supervisor has given the worker up: it stops gracefully.
    NotAlive,
    /// The next tick is waited for.
    Wait,
}

impl Beat {
    /// How this stops the worker.
    pub open spec fn spec_kind(self) -> Option<ShutdownKind> {
        match self {
            Beat::Orphaned => Some(ShutdownKind::Quick),
            Beat::NotAlive => Some(ShutdownKind::Graceful),
            _ => None,
        }
    }

    /// How this stops the worker, if it does.
    pub fn kind(self) -> (r: Option<ShutdownKind>)
        ensures
            r == self.spec_kind(),
    {
        match self {
            Beat::Orphaned => Some(ShutdownKind::Quick),
            Beat::NotAlive => Some(ShutdownKind::Graceful),
            _ => None,
        }
    }

    /// The line to print, if any.
    pub fn line(self) -> (r: Option<&'static str>)
        ensures
            match self {
                Beat::Orphaned => r matches Some(s) && s@
                    == "WARN rustwasgi: parent changed; shutting down"@,
                Beat::NotAlive => r matches Some(s) && s@
                    == "INFO rustwasgi: worker marked not alive; shutting down"@,
                _ => r is None,
            },
    {
        match self {
            Beat::Orphaned => Some("WARN rustwasgi: parent changed; shutting down"),
            Beat::NotAlive => Some("INFO rustwasgi: worker marked not alive; shutting down"),
            _ => None,
        }
    }
}

/// What a tick calls for, before the supervisor is asked.
pub fn heartbeat_tick(shutdown: &Shutdown, parent_changed: bool) -> (r: Beat)
    ensures
        r == if shutdown.flag {
            Beat::Stop
        } else if parent_changed {
            Beat::Orphaned
        } else {
            Beat::Ask
        },
{
    if shutdown.is_set() {
        Beat::Stop
    } else if parent_changed {
        Beat::Orphaned
    } else {
        Beat::Ask
    }
}

/// What follows from the supervisor's answer. Without a proper answer the
/// worker counts as alive.
pub fn heartbeat_answer(alive: Option<bool>) -> (r: Beat)
    ensures
        r == if alive == Some(false) {
            Beat::NotAlive
        } else {
            Beat::Wait
        },
{
    match alive {
        Some(false) => Beat::NotAlive,
        _ => Beat::Wait,
    }
}

/// Where a worker stands.
#[derive(Debug, Clone, Copy, PartialEq, Eq, Structural)]
pub enum Stage {
    /// Requests are accepted.
    Serving,
    /// The acceptors are waited for.
    Joining,
    /// What is in flight is waited for.
    Draining,
    /// Connections are aborted and waited for.
    Closing,
    Done,
}

/// What happened to a worker.
#[derive(Debug, Clone, Copy, PartialEq, Eq, Structural)]
pub enum Event {
    /// The worker is to stop.
    Asked { kind: ShutdownKind },
    /// All acceptors are gone.
    Joined,
    /// A look at what is in flight: how many requests, and the nanoseconds
    /// since the drain began.
    Looked { in_flight: usize, elapsed_ns: u128 },
    /// All connections are gone.
    Closed,
}

/// What is to be done.
#[derive(Debug, Clone, Copy, PartialEq, Eq, Structural)]
pub enum Action {
    /// Announce how the worker stops, and wait for the acceptors.
    Announce { kind: ShutdownKind },
    /// Look at what is in flight.
    Look,
    /// Sleep for [`DRAIN_PAUSE_MS`], then look again.
    Pause,
    /// Announce how the drain ended; print the report of the metrics, if they
    /// are on; abort the connections.
    Drained { remaining: usize },
    /// Print the report, if the metrics are on; abort the connections.
    Abort,
    /// Release the watcher of signals; the worker is done.
    Release,
}

/// Milliseconds between two looks at what is in flight.
pub const DRAIN_PAUSE_MS: u64 = 50;

/// A worker that serves.
#[derive(Debug, Clone, Copy, PartialEq, Eq, Structural)]
pub struct Worker {
    pub stage: Stage,
    pub kind: ShutdownKind,
    /// Seconds that the drain may take.
    pub graceful_timeout: u64,
}

/// Nanoseconds in some seconds.
pub open spec fn nanoseconds(secs: u64) -> int {
    secs * 1_000_000_000
}

impl Worker {
    /// Whether an event can happen in this state.
    pub open spec fn expects(self, event: Event) -> bool {
        match event {
            Event::Asked { .. } => self.stage is Serving,
            Event::Joined => self.stage is Joining,
            Event::Looked { .. } => self.stage is Draining,
            Event::Closed => self.stage is Closing,
        }
    }

    /// The state after an event, and what is to be done. Only a graceful stop
    /// waits for what is in flight, and no longer than allowed.
    pub open spec fn next(self, event: Event) -> (Worker, Action) {
        match event {
            Event::Asked { kind } => (
                Worker { stage: Stage::Joining, kind, ..self },
                Action::Announce { kind },
            ),
            Event::Joined => if self.kind is Graceful {
                (Worker { stage: Stage::Draining, ..self }, Action::Look)
            } else {
                (Worker { stage: Stage::Closing, ..self }, Action::Abort)
            },
            Event::Looked { in_flight, elapsed_ns } => if in_flight > 0 && elapsed_ns < nanoseconds(
                self.graceful_timeout,
            ) {
                (self, Action::Pause)
            } else {
                (
                    Worker { stage: Stage::Closing, ..self },
                    Action::Drained { remaining: in_flight },
                )
            },
            Event::Closed => (Worker { stage: Stage::Done, ..self }, Action::Release),
        }
    }

    /// A worker that serves.
    pub fn serve(graceful_timeout: u64) -> (r: Worker)
        ensures
            r.stage is Serving,
            r.kind is Graceful,
            r.graceful_timeout == graceful_timeout,
    {
        Worker { stage: Stage::Serving, kind: ShutdownKind::Graceful, graceful_timeout }
    }

    /// Takes one event, and tells what is to be done.
    pub fn step(&mut self, event: Event) -> (r: Action)
        requires
            old(self).expects(event),
        ensures
            (*final(self), r) == old(self).next(event),
    {
        match event {
            Event::Asked { kind } => {
                self.stage = Stage::Joining;
                self.kind = kind;
                Action::Announce { kind }
            },
            Event::Joined => {
                if let ShutdownKind::Graceful = self.kind {
                    self.stage = Stage::Draining;
                    Action::Look
                } else {
                    self.stage = Stage::Closing;
                    Action::Abort
                }
            },
            Event::Looked { in_flight, elapsed_ns } => {
                let limit: u128 = (self.graceful_timeout as u128) * 1_000_000_000;
                if in_flight > 0 && elapsed_ns < limit {
                    Action::Pause
                } else {
                    self.stage = Stage::Closing;
                    Action::Drained { remaining: in_flight }
                }
            },
            Event::Closed => {
                self.stage = Stage::Done;
                Action::Release
            },
        }
    }
}

/// The line that announces how the worker stops.
pub fn stop_line(kind: ShutdownKind) -> (r: &'static str)
    ensures
        r@ == match kind {
            ShutdownKind::Graceful => "INFO rustwasgi: shutting down gracefully"@,
            ShutdownKind::Quick => "INFO rustwasgi: quick shutdown"@,
        },
{
    match kind {
        ShutdownKind::Graceful => "INFO rustwasgi: shutting down gracefully",
        ShutdownKind::Quick => "INFO rustwasgi: quick shutdown",
    }
}

/// The line that announces how the drain ended.
pub fn drain_line(remaining: usize, graceful_timeout: u64) -> (r: String)
    ensures
        r@ == if remaining > 0 {
            "WARN rustwasgi: shutdown with "@ + text::decimal(remaining as nat)
                + " in-flight request(s) after "@ + text::decimal(graceful_timeout as nat) + "s"@
        } else {
            "INFO rustwasgi: shutdown complete"@
        },
{
    if remaining > 0 {
        let a = cat("WARN rustwasgi: shutdown with ", to_decimal(remaining as u64).as_str());
        let b = cat(a.as_str(), " in-flight request(s) after ");
        let c = cat(b.as_str(), to_decimal(graceful_timeout).as_str());
        cat(c.as_str(), "s")
    } else {
        "INFO rustwasgi: shutdown complete".to_string()
    }
}

/// Whether a series of events can happen to a worker.
pub open spec fn possible(w: Worker, events: Seq<Event>) -> bool
    decreases events.len(),
{
    events.len() == 0 || {
        &&& possible(w, events.drop_last())
        &&& after(w, events.drop_last()).expects(events.last())
    }
}

/// The state of a worker after a series of events.
pub open spec fn after(w: Worker, events: Seq<Event>) -> Worker
    decreases events.len(),
{
    if events.len() == 0 {
        w
    } else {
        after(w, events.drop_last()).next(events.last()).0
    }
}

/// Whether a look found nothing in flight, or the time of the drain up.
pub open spec fn found_drained(event: Event, graceful_timeout: u64) -> bool {
    event matches Event::Looked { in_flight, elapsed_ns } && (in_flight == 0 || elapsed_ns
        >= nanoseconds(graceful_timeout))
}

/// A worker that stops gracefully aborts its connections only after it found
/// nothing in flight, or after the time of the drain was up.
pub proof fn graceful_stop_drains(w: Worker, events: Seq<Event>)
    requires
        w.stage is Serving,
        possible(w, events),
        after(w, events).stage is Closing || after(w, events).stage is Done,
        after(w, events).kind is Graceful,
    ensures
        exists|i: int|
            0 <= i < events.len() && found_drained(#[trigger] events[i], w.graceful_timeout),
{
    graceful_stop_drains_inner(w, events);
}

proof fn graceful_stop_drains_inner(w: Worker, events: Seq<Event>)
    requires
        w.stage is Serving,
        possible(w, events),
    ensures
        after(w, events).graceful_timeout == w.graceful_timeout,
        (after(w, events).stage is Closing || after(w, events).stage is Done) && after(
            w,
            events,
        ).kind is Graceful ==> exists|i: int|
            0 <= i < events.len() && found_drained(#[trigger] events[i], w.graceful_timeout),
    decreases events.len(),
{
    if events.len() > 0 {
        let before = events.drop_last();
        graceful_stop_drains_inner(w, before);
        if exists|i: int|
            0 <= i < before.len() && found_drained(#[trigger] before[i], w.graceful_timeout) {
            let i = choose|i: int|
                0 <= i < before.len() && found_drained(#[trigger] before[i], w.graceful_timeout);
            assert(found_drained(events[i], w.graceful_timeout));
        }
        assert(events.last() == events[events.len() - 1]);
    }
}

/// A worker that stops quickly never waits for what is in flight.
pub proof fn quick_stop_never_drains(w: Worker, events: Seq<Event>)
    requires
        w.stage is Serving,
        possible(w, events),
        after(w, events).stage is Draining,
    ensures
        after(w, events).kind is Graceful,
    decreases events.len(),
{
    if events.len() > 0 && after(w, events.drop_last()).stage is Draining {
        quick_stop_never_drains(w, events.drop_last());
    }
}

/// Seconds are counted in thousands of millions of nanoseconds.
pub proof fn seconds_in_nanoseconds(a: u64, b: u64)
    ensures
        nanoseconds(0) == 0,
        nanoseconds(1) == 1_000_000_000,
        a + b <= u64::MAX ==> nanoseconds((a + b) as u64) == nanoseconds(a) + nanoseconds(b),
{
    assert((a + b) * 1_000_000_000 == a * 1_000_000_000 + b * 1_000_000_000) by (nonlinear_arith);
}

/// A worker stops as it was asked to: it waits for its acceptors, then for what
/// is in flight where the stop is graceful and time is left, then it aborts
/// what remains and is done. It tells the number that remained.
pub proof fn stop_goes_in_order(w: Worker, event: Event)
    requires
        w.expects(event),
    ensures
        ({
            let (now, action) = w.next(event);
            &&& now.graceful_timeout == w.graceful_timeout
            &&& event matches Event::Asked { kind } ==> now.kind == kind && now.stage is Joining
                && action == (Action::Announce { kind })
            &&& !(event is Asked) ==> now.kind == w.kind
            &&& event is Joined ==> (now.stage is Draining <==> w.kind is Graceful) && (
            now.stage is Closing <==> w.kind is Quick)
            &&& action is Look <==> now.stage is Draining && !(w.stage is Draining)
            &&& action is Abort <==> event is Joined && w.kind is Quick
            &&& event matches Event::Looked { in_flight, elapsed_ns } ==> {
                let more = in_flight > 0 && elapsed_ns < w.graceful_timeout * 1_000_000_000;
                &&& more ==> action is Pause && now == w
                &&& !more ==> action == (Action::Drained { remaining: in_flight })
                    && now.stage is Closing
            }
            &&& event is Closed ==> now.stage is Done && action is Release
        }),
{
}

/// A worker that is asked to stop can go on to the end: in every stage the
/// event that it waits for is taken.
pub proof fn stop_waits_for_one_thing(w: Worker, kind: ShutdownKind, n: usize, ns: u128)
    ensures
        w.stage is Serving ==> w.expects(Event::Asked { kind }),
        w.stage is Joining ==> w.expects(Event::Joined),
        w.stage is Draining ==> w.expects(Event::Looked { in_flight: n, elapsed_ns: ns }),
        w.stage is Closing ==> w.expects(Event::Closed),
        w.stage is Done ==> forall|event: Event| !w.expects(event),
{
}

/// A polite signal asks for a graceful stop, an urgent one for a quick stop;
/// the end of serving asks for nothing. An urgent signal is always heard, a
/// polite one once.
pub proof fn signals_mean_what_they_say(w: Watcher, signal: Signal)
    ensures
        w.asks(Signal::Terminate) == Some(ShutdownKind::Graceful),
        w.asks(Signal::Quit) == Some(ShutdownKind::Quick),
        w.asks(Signal::Interrupt) == Some(ShutdownKind::Quick),
        w.asks(signal) is None <==> signal is Served,
        w.listens(signal) <==> !(signal is Terminate && w.triggered),
{
}

/// An orphan stops quickly, a worker that was given up gracefully; no other
/// beat stops a worker.
pub proof fn beats_stop_for_a_cause(b: Beat)
    ensures
        b.spec_kind() == Some(ShutdownKind::Quick) <==> b is Orphaned,
        b.spec_kind() == Some(ShutdownKind::Graceful) <==> b is NotAlive,
{
}

} // verus!
