//! Counters and timers of the request path.
//!
//! Counting is off unless profiling was asked for. With it on, a worker
//! prints an aggregate table at shutdown: one row per phase with its mean
//! duration, the number of requests, every other counter per request, and the
//! mean duration of an attach:
//!
//! ```text
//! requests: 100000
//! tokio_spawns/request: X
//! python_attaches/request: X
//! into_future/request: X
//! attach_mean_us: X
//! ```

use vstd::prelude::*;
use crate::text;
use crate::text::{cat, pad_end, pad_start, str_eq, to_decimal};

verus! {

pub const N_PHASES: usize = 6;
pub const P_ESTABLISH: usize = 0;
pub const P_APP_WAIT: usize = 1;
pub const P_PUMP: usize = 2;
pub const P_TOTAL: usize = 3;
pub const P_ATTACH_WAIT: usize = 4;
pub const P_ATTACH_HOLD: usize = 5;

pub const N_COUNTERS: usize = 18;
pub const C_REQUESTS: usize = 0;
pub const C_SPAWNS: usize = 1;
pub const C_INTO_FUTURE: usize = 2;
pub const C_SEND_FAST: usize = 3;
pub const C_SEND_FULL: usize = 4;
pub const C_ATTACH: usize = 5;
pub const C_FEED_CHUNKS: usize = 6;
pub const C_APPDONE_A: usize = 7;
pub const C_APPDONE_PUMP: usize = 8;
pub const C_APPDONE_NOWNOVER: usize = 9;
pub const C_APPDONE_REAPER: usize = 10;
pub const C_APPDONE_DEADLINE: usize = 11;
pub const C_TLS_HANDSHAKES: usize = 12;
pub const C_TLS_HANDSHAKE_ERRORS: usize = 13;
pub const C_ACME_ORDERS: usize = 14;
pub const C_ACME_RENEWALS: usize = 15;
pub const C_ACME_RENEWAL_FAILURES: usize = 16;
pub const C_ACME_CHALLENGE_HITS: usize = 17;

/// The name of a phase in the report.
pub open spec fn phase_text(i: int) -> Seq<char> {
    if i == P_ESTABLISH {
        "establish"@
    } else if i == P_APP_WAIT {
        "app_wait"@
    } else if i == P_PUMP {
        "pump"@
    } else if i == P_TOTAL {
        "total"@
    } else if i == P_ATTACH_WAIT {
        "attach_wait"@
    } else {
        "attach_hold"@
    }
}

/// The name of a phase in the report.
pub fn phase_name(i: usize) -> (r: &'static str)
    requires
        i < N_PHASES,
    ensures
        r@ == phase_text(i as int),
{
    match i {
        0 => "establish",
        1 => "app_wait",
        2 => "pump",
        3 => "total",
        4 => "attach_wait",
        _ => "attach_hold",
    }
}

/// The name of a counter in the report.
pub open spec fn counter_text(i: int) -> Seq<char> {
    if i == C_REQUESTS {
        "requests"@
    } else if i == C_SPAWNS {
        "tokio_spawns"@
    } else if i == C_INTO_FUTURE {
        "into_future"@
    } else if i == C_SEND_FAST {
        "send_try_ok"@
    } else if i == C_SEND_FULL {
        "send_full_wait"@
    } else if i == C_ATTACH {
        "gil_attach"@
    } else if i == C_FEED_CHUNKS {
        "feed_chunks"@
    } else if i == C_APPDONE_A {
        "appdone_phase_a"@
    } else if i == C_APPDONE_PUMP {
        "appdone_pump"@
    } else if i == C_APPDONE_NOWNOVER {
        "appdone_now_or_never"@
    } else if i == C_APPDONE_REAPER {
        "appdone_reaper"@
    } else if i == C_APPDONE_DEADLINE {
        "appdone_deadline"@
    } else if i == C_TLS_HANDSHAKES {
        "tls_handshakes"@
    } else if i == C_TLS_HANDSHAKE_ERRORS {
        "tls_handshake_errors"@
    } else if i == C_ACME_ORDERS {
        "acme_orders"@
    } else if i == C_ACME_RENEWALS {
        "acme_renewals"@
    } else if i == C_ACME_RENEWAL_FAILURES {
        "acme_renewal_failures"@
    } else {
        "acme_challenge_hits"@
    }
}

/// The name of a counter in the report.
pub fn counter_name(i: usize) -> (r: &'static str)
    requires
        i < N_COUNTERS,
    ensures
        r@ == counter_text(i as int),
{
    match i {
        0 => "requests",
        1 => "tokio_spawns",
        2 => "into_future",
        3 => "send_try_ok",
        4 => "send_full_wait",
        5 => "gil_attach",
        6 => "feed_chunks",
        7 => "appdone_phase_a",
        8 => "appdone_pump",
        9 => "appdone_now_or_never",
        10 => "appdone_reaper",
        11 => "appdone_deadline",
        12 => "tls_handshakes",
        13 => "tls_handshake_errors",
        14 => "acme_orders",
        15 => "acme_renewals",
        16 => "acme_renewal_failures",
        _ => "acme_challenge_hits",
    }
}

/// The counters and timers of one worker.
pub struct Metrics {
    on: bool,
    counters: Vec<u64>,
    phase_ns: Vec<u64>,
    phase_n: Vec<u64>,
}

/// The content of [`Metrics`].
#[verifier::ext_equal]
pub struct MetricsView {
    pub on: bool,
    pub counters: Seq<u64>,
    pub phase_ns: Seq<u64>,
    pub phase_n: Seq<u64>,
}

impl View for Metrics {
    type V = MetricsView;

    closed spec fn view(&self) -> MetricsView {
        MetricsView {
            on: self.on,
            counters: self.counters@,
            phase_ns: self.phase_ns@,
            phase_n: self.phase_n@,
        }
    }
}

/// A counter that wraps around.
pub open spec fn wrapped(a: u64, b: int) -> u64 {
    ((a + b) % 0x1_0000_0000_0000_0000) as u64
}

impl MetricsView {
    /// One counter went up by one, if profiling is on.
    pub open spec fn counted(self, counter: int) -> MetricsView {
        if self.on {
            MetricsView {
                counters: self.counters.update(counter, wrapped(self.counters[counter], 1)),
                ..self
            }
        } else {
            self
        }
    }

    /// One phase took `ns` nanoseconds, if profiling is on.
    pub open spec fn timed(self, phase: int, ns: int) -> MetricsView {
        if self.on {
            MetricsView {
                phase_ns: self.phase_ns.update(phase, wrapped(self.phase_ns[phase], ns)),
                phase_n: self.phase_n.update(phase, wrapped(self.phase_n[phase], 1)),
                ..self
            }
        } else {
            self
        }
    }

    /// There is one slot for each counter and each phase.
    pub open spec fn sized(self) -> bool {
        &&& self.counters.len() == N_COUNTERS
        &&& self.phase_ns.len() == N_PHASES
        &&& self.phase_n.len() == N_PHASES
    }
}

impl Metrics {
    /// Metrics with all counters at zero. `profile` is the value of the
    /// environment variable `RUSTWASGI_PROFILE`: profiling is on where it
    /// is `1`.
    pub fn new(profile: Option<&str>) -> (r: Metrics)
        ensures
            r@.sized(),
            r@.on == (profile matches Some(p) && p@ == "1"@),
            r@.counters == Seq::new(N_COUNTERS as nat, |i: int| 0u64),
            r@.phase_ns == Seq::new(N_PHASES as nat, |i: int| 0u64),
            r@.phase_n == Seq::new(N_PHASES as nat, |i: int| 0u64),
    {
        let on: bool = match profile {
            Some(p) => str_eq(p, "1"),
            None => false,
        };
        Metrics {
            on,
            counters: vec![0u64; 18],
            phase_ns: vec![0u64; 6],
            phase_n: vec![0u64; 6],
        }
    }
}

/// Whether profiling is on.
pub fn enabled(m: &Metrics) -> (r: bool)
    ensures
        r == m@.on,
{
    m.on
}

/// The sum of two numbers, wrapped around.
fn wrapping(a: u64, b: u64) -> (r: u64)
    ensures
        r == wrapped(a, b as int),
{
    a.wrapping_add(b)
}

/// Adds one to a counter, if profiling is on.
pub fn inc(m: &mut Metrics, counter: usize)
    requires
        old(m)@.sized(),
        old(m)@.on ==> counter < N_COUNTERS,
    ensures
        final(m)@ == old(m)@.counted(counter as int),
        final(m)@.sized(),
{
    if m.on {
        let n: u64 = wrapping(m.counters[counter], 1);
        m.counters.set(counter, n);
    }
}

/// Counts a TLS handshake.
pub fn inc_tls_handshake(m: &mut Metrics)
    requires
        old(m)@.sized(),
    ensures
        final(m)@ == old(m)@.counted(C_TLS_HANDSHAKES as int),
        final(m)@.sized(),
{
    inc(m, C_TLS_HANDSHAKES);
}

/// Counts a TLS handshake that failed.
pub fn inc_tls_handshake_error(m: &mut Metrics)
    requires
        old(m)@.sized(),
    ensures
        final(m)@ == old(m)@.counted(C_TLS_HANDSHAKE_ERRORS as int),
        final(m)@.sized(),
{
    inc(m, C_TLS_HANDSHAKE_ERRORS);
}

/// Counts an answered ACME challenge.
pub fn inc_acme_challenge_hit(m: &mut Metrics)
    requires
        old(m)@.sized(),
    ensures
        final(m)@ == old(m)@.counted(C_ACME_CHALLENGE_HITS as int),
        final(m)@.sized(),
{
    inc(m, C_ACME_CHALLENGE_HITS);
}

/// Records that a phase took `elapsed_ns` nanoseconds, if profiling is on.
/// The sums wrap around at 64 bits.
pub fn phase(m: &mut Metrics, phase: usize, elapsed_ns: u128)
    requires
        old(m)@.sized(),
        old(m)@.on ==> phase < N_PHASES,
    ensures
        final(m)@ == old(m)@.timed(phase as int, elapsed_ns as int),
        final(m)@.sized(),
{
    if m.on {
        let low: u64 = (elapsed_ns % 0x1_0000_0000_0000_0000) as u64;
        let ghost was = m.phase_ns@[phase as int];
        let ns: u64 = wrapping(m.phase_ns[phase], low);
        proof {
            assert(wrapped(was, low as int) == wrapped(was, elapsed_ns as int)) by {
                vstd::arithmetic::div_mod::lemma_add_mod_noop_right(
                    was as int,
                    elapsed_ns as int,
                    0x1_0000_0000_0000_0000,
                );
            }
        }
        let n: u64 = wrapping(m.phase_n[phase], 1);
        m.phase_ns.set(phase, ns);
        m.phase_n.set(phase, n);
    }
}

/// Records one attachment to the interpreter: how long it was waited for and
/// how long it was held.
pub fn attached(m: &mut Metrics, wait_ns: u128, hold_ns: u128)
    requires
        old(m)@.sized(),
    ensures
        final(m)@ == old(m)@.timed(P_ATTACH_WAIT as int, wait_ns as int).timed(
            P_ATTACH_HOLD as int,
            hold_ns as int,
        ),
        final(m)@.sized(),
{
    phase(m, P_ATTACH_WAIT, wait_ns);
    phase(m, P_ATTACH_HOLD, hold_ns);
}

/// One row of the report.
#[derive(Debug, Clone, Copy)]
pub enum Row {
    /// A phase: how often it ran and the nanoseconds that it took in all.
    Phase { name: &'static str, n: u64, ns: u64 },
    /// The number of requests.
    Count { name: &'static str, count: u64 },
    /// A counter, to be shown per request. `requests` is at least one.
    Ratio { name: &'static str, count: u64, requests: u64 },
    /// The attaches: how many there were and the nanoseconds that waiting and
    /// holding took in all.
    Attach { n: u64, ns: u128 },
}

/// The content of a [`Row`].
pub enum RowView {
    Phase { name: Seq<char>, n: u64, ns: u64 },
    Count { name: Seq<char>, count: u64 },
    Ratio { name: Seq<char>, count: u64, requests: u64 },
    Attach { n: u64, ns: int },
}

/// The first line of the table.
pub const TABLE_HEAD: &'static str = "---- request-path profile ----";

/// What the table calls a counter.
pub open spec fn shown_name(name: Seq<char>) -> Seq<char> {
    if name == counter_text(C_ATTACH as int) {
        "python_attaches"@
    } else {
        name
    }
}

impl RowView {
    /// The line of this row. `figure` is the mean duration in microseconds of
    /// a phase or an attach, or a counter divided by the requests.
    pub open spec fn line(self, figure: Seq<char>) -> Seq<char> {
        match self {
            RowView::Phase { name, n, .. } => "phase "@ + (name + text::spaces(name.len(), 12))
                + " n="@ + (text::spaces(text::decimal(n as nat).len(), 8) + text::decimal(
                n as nat,
            )) + " mean="@ + (text::spaces(figure.len(), 9) + figure) + "us"@,
            RowView::Count { name, count } => name + ": "@ + text::decimal(count as nat),
            RowView::Ratio { name, .. } => shown_name(name) + "/request: "@ + figure,
            RowView::Attach { .. } => "attach_mean_us: "@ + figure,
        }
    }
}

impl View for Row {
    type V = RowView;

    open spec fn view(&self) -> RowView {
        match self {
            Row::Phase { name, n, ns } => RowView::Phase { name: name@, n: *n, ns: *ns },
            Row::Count { name, count } => RowView::Count { name: name@, count: *count },
            Row::Ratio { name, count, requests } => RowView::Ratio {
                name: name@,
                count: *count,
                requests: *requests,
            },
            Row::Attach { n, ns } => RowView::Attach { n: *n, ns: *ns as int },
        }
    }
}

impl Row {
    /// The line of this row. `figure` is the mean duration in microseconds of
    /// a phase or an attach, or a counter divided by the requests; the number
    /// of requests needs none.
    pub fn line(&self, figure: &str) -> (r: String)
        ensures
            r@ == self@.line(figure@),
    {
        match self {
            Row::Phase { name, n, .. } => {
                let a = cat("phase ", pad_end(name, 12).as_str());
                let b = cat(a.as_str(), " n=");
                let c = cat(b.as_str(), pad_start(to_decimal(*n).as_str(), 8).as_str());
                let d = cat(c.as_str(), " mean=");
                let e = cat(d.as_str(), pad_start(figure, 9).as_str());
                cat(e.as_str(), "us")
            },
            Row::Count { name, count } => {
                let a = cat(name, ": ");
                cat(a.as_str(), to_decimal(*count).as_str())
            },
            Row::Ratio { name, .. } => {
                let shown: &str = if str_eq(name, counter_name(C_ATTACH)) {
                    "python_attaches"
                } else {
                    name
                };
                let a = cat(shown, "/request: ");
                cat(a.as_str(), figure)
            },
            Row::Attach { .. } => cat("attach_mean_us: ", figure),
        }
    }
}

/// The rows of the report.
pub open spec fn report_rows(m: MetricsView) -> Seq<RowView> {
    if !m.on {
        Seq::empty()
    } else {
        Seq::new(
            (N_PHASES + N_COUNTERS + 1) as nat,
            |i: int|
                if i == N_PHASES + N_COUNTERS {
                    RowView::Attach {
                        n: m.phase_n[P_ATTACH_WAIT as int],
                        ns: m.phase_ns[P_ATTACH_WAIT as int] + m.phase_ns[P_ATTACH_HOLD as int],
                    }
                } else if i < N_PHASES {
                    RowView::Phase { name: phase_text(i), n: m.phase_n[i], ns: m.phase_ns[i] }
                } else if i - N_PHASES == C_REQUESTS {
                    RowView::Count {
                        name: counter_text(C_REQUESTS as int),
                        count: m.counters[C_REQUESTS as int],
                    }
                } else {
                    RowView::Ratio {
                        name: counter_text(i - N_PHASES),
                        count: m.counters[i - N_PHASES],
                        requests: if m.counters[C_REQUESTS as int] == 0 {
                            1
                        } else {
                            m.counters[C_REQUESTS as int]
                        },
                    }
                },
        )
    }
}

/// The contents of a list of rows.
pub open spec fn row_views(rows: Seq<Row>) -> Seq<RowView> {
    rows.map_values(|r: Row| r@)
}

/// The rows of the report: every phase, every counter, and the attaches. There
/// are none unless profiling is on.
pub fn report(m: &Metrics) -> (r: Vec<Row>)
    requires
        m@.sized(),
    ensures
        row_views(r@) == report_rows(m@),
{
    let mut rows: Vec<Row> = Vec::new();
    if !m.on {
        assert(row_views(rows@) =~= report_rows(m@));
        return rows;
    }
    let mut i: usize = 0;
    while i < N_PHASES
        invariant
            i <= N_PHASES,
            m@.sized(),
            m@.on,
            rows@.len() == i,
            forall|j: int| 0 <= j < i ==> (#[trigger] rows@[j])@ == report_rows(m@)[j],
        decreases N_PHASES - i,
    {
        rows.push(Row::Phase { name: phase_name(i), n: m.phase_n[i], ns: m.phase_ns[i] });
        i += 1;
    }
    let requests: u64 = if m.counters[C_REQUESTS] == 0 {
        1
    } else {
        m.counters[C_REQUESTS]
    };
    let mut k: usize = 0;
    while k < N_COUNTERS
        invariant
            k <= N_COUNTERS,
            m@.sized(),
            m@.on,
            requests == (if m@.counters[0] == 0 {
                1
            } else {
                m@.counters[0]
            }),
            rows@.len() == N_PHASES + k,
            forall|j: int|
                0 <= j < N_PHASES + k ==> (#[trigger] rows@[j])@ == report_rows(m@)[j],
        decreases N_COUNTERS - k,
    {
        if k == C_REQUESTS {
            rows.push(Row::Count { name: counter_name(k), count: m.counters[k] });
        } else {
            rows.push(Row::Ratio { name: counter_name(k), count: m.counters[k], requests });
        }
        k += 1;
    }
    let ns: u128 = m.phase_ns[P_ATTACH_WAIT] as u128 + m.phase_ns[P_ATTACH_HOLD] as u128;
    rows.push(Row::Attach { n: m.phase_n[P_ATTACH_WAIT], ns });
    assert(row_views(rows@) =~= report_rows(m@));
    rows
}

/// A count adds one to its counter and leaves the others; a time adds its
/// nanoseconds and one run to its phase and leaves the others. Both wrap around
/// at the end of their range.
pub proof fn counts_and_times_add_up(m: MetricsView, c: int, p: int, ns: int, other: int)
    requires
        m.sized(),
        m.on,
        0 <= c < N_COUNTERS,
        0 <= p < N_PHASES,
        0 <= ns,
    ensures
        m.counters[c] < u64::MAX ==> m.counted(c).counters[c] == m.counters[c] + 1,
        m.counters[c] == u64::MAX ==> m.counted(c).counters[c] == 0,
        0 <= other < N_COUNTERS && other != c ==> m.counted(c).counters[other] == m.counters[other],
        m.counted(c).phase_n == m.phase_n && m.counted(c).phase_ns == m.phase_ns,
        m.phase_ns[p] + ns <= u64::MAX ==> m.timed(p, ns).phase_ns[p] == m.phase_ns[p] + ns,
        m.phase_n[p] < u64::MAX ==> m.timed(p, ns).phase_n[p] == m.phase_n[p] + 1,
        0 <= other < N_PHASES && other != p ==> m.timed(p, ns).phase_ns[other]
            == m.phase_ns[other] && m.timed(p, ns).phase_n[other] == m.phase_n[other],
        m.timed(p, ns).counters == m.counters,
        m.counted(c).sized() && m.timed(p, ns).sized(),
        m.counted(c).on && m.timed(p, ns).on,
{
}

/// The report shows every phase and every counter: a phase with its runs and
/// its nanoseconds, the requests as they are, and every other counter beside
/// the number of requests, or beside one where there was none.
pub proof fn report_shows_all(m: MetricsView, p: int, c: int)
    requires
        m.sized(),
        m.on,
        0 <= p < N_PHASES,
        0 <= c < N_COUNTERS,
    ensures
        report_rows(m).len() == N_PHASES + N_COUNTERS + 1,
        report_rows(m)[p] == (RowView::Phase {
            name: phase_text(p),
            n: m.phase_n[p],
            ns: m.phase_ns[p],
        }),
        c == 0 ==> report_rows(m)[N_PHASES + c] == (RowView::Count {
            name: "requests"@,
            count: m.counters[0],
        }),
        c > 0 ==> report_rows(m)[N_PHASES + c] == (RowView::Ratio {
            name: counter_text(c),
            count: m.counters[c],
            requests: if m.counters[0] > 0 {
                m.counters[0]
            } else {
                1
            },
        }),
        report_rows(m).last() == (RowView::Attach {
            n: m.phase_n[4],
            ns: m.phase_ns[4] + m.phase_ns[5],
        }),
{
}

/// The lines of the table: a counter stands before its colon, and a ratio says
/// that it is one per request.
pub proof fn lines_name_their_figures(count: u64, requests: u64, c: int, figure: Seq<char>)
    requires
        0 < c < N_COUNTERS,
    ensures
        (RowView::Count { name: "requests"@, count }).line(figure) == "requests: "@ + text::decimal(
            count as nat,
        ),
        (RowView::Ratio { name: "tokio_spawns"@, count, requests }).line(figure)
            == "tokio_spawns/request: "@ + figure,
        (RowView::Ratio { name: "into_future"@, count, requests }).line(figure)
            == "into_future/request: "@ + figure,
        (RowView::Ratio { name: "gil_attach"@, count, requests }).line(figure)
            == "python_attaches/request: "@ + figure,
        (RowView::Attach { n: count, ns: 0 }).line(figure) == "attach_mean_us: "@ + figure,
        counter_text(1) == "tokio_spawns"@ && counter_text(2) == "into_future"@ && counter_text(5)
            == "gil_attach"@,
{
    reveal_strlit("requests");
    reveal_strlit(": ");
    reveal_strlit("requests: ");
    assert("requests"@ + ": "@ =~= "requests: "@);
    reveal_strlit("tokio_spawns");
    reveal_strlit("/request: ");
    reveal_strlit("tokio_spawns/request: ");
    assert("tokio_spawns"@ + "/request: "@ =~= "tokio_spawns/request: "@);
    reveal_strlit("into_future");
    reveal_strlit("into_future/request: ");
    assert("into_future"@ + "/request: "@ =~= "into_future/request: "@);
    reveal_strlit("gil_attach");
    reveal_strlit("python_attaches");
    reveal_strlit("python_attaches/request: ");
    assert("python_attaches"@ + "/request: "@ =~= "python_attaches/request: "@);
    assert("gil_attach"@.len() == 10 && "into_future"@.len() == 11 && "tokio_spawns"@.len() == 12);
}

/// The phases stand in columns: what is short enough takes the same places in
/// every line, names from the left, numbers to the right.
pub proof fn phases_stand_in_columns(name: Seq<char>, n: u64, ns: u64, figure: Seq<char>)
    requires
        name.len() <= 12,
        text::decimal(n as nat).len() <= 8,
        figure.len() <= 9,
    ensures
        ({
            let line = (RowView::Phase { name, n, ns }).line(figure);
            let count = text::decimal(n as nat);
            &&& line.len() == 46
            &&& line.take(6) == "phase "@
            &&& line.subrange(6, 6 + name.len() as int) == name
            &&& forall|i: int| 6 + name.len() <= i < 18 ==> #[trigger] line[i] == ' '
            &&& line.subrange(18, 21) == " n="@
            &&& forall|i: int| 21 <= i < 29 - count.len() ==> #[trigger] line[i] == ' '
            &&& line.subrange(29 - count.len() as int, 29) == count
            &&& line.subrange(29, 35) == " mean="@
            &&& forall|i: int| 35 <= i < 44 - figure.len() ==> #[trigger] line[i] == ' '
            &&& line.subrange(44 - figure.len() as int, 44) == figure
            &&& line.subrange(44, 46) == "us"@
        }),
{
    let count = text::decimal(n as nat);
    reveal_strlit("phase ");
    reveal_strlit(" n=");
    reveal_strlit(" mean=");
    reveal_strlit("us");
    text::spaces_fill_the_width(name.len(), 12);
    text::spaces_fill_the_width(count.len(), 8);
    text::spaces_fill_the_width(figure.len(), 9);
    let line = (RowView::Phase { name, n, ns }).line(figure);
    assert(line.len() == 46);
    assert(line.take(6) =~= "phase "@);
    assert(line.subrange(6, 6 + name.len() as int) =~= name);
    assert(line.subrange(18, 21) =~= " n="@);
    assert(line.subrange(29 - count.len() as int, 29) =~= count);
    assert(line.subrange(29, 35) =~= " mean="@);
    assert(line.subrange(44 - figure.len() as int, 44) =~= figure);
    assert(line.subrange(44, 46) =~= "us"@);
}

/// With profiling off nothing is ever counted or timed.
pub proof fn off_stays_still(m: MetricsView, counter: int, phase: int, ns: int)
    requires
        !m.on,
    ensures
        m.counted(counter) == m,
        m.timed(phase, ns) == m,
        report_rows(m).len() == 0,
{
}

/// Counters are independent: counting one leaves every other counter and all
/// timers as they were, and two counts commute.
pub proof fn counts_commute(m: MetricsView, a: int, b: int)
    requires
        m.sized(),
        0 <= a < N_COUNTERS,
        0 <= b < N_COUNTERS,
    ensures
        m.counted(a).counted(b) == m.counted(b).counted(a),
        a != b ==> m.counted(a).counters[b] == m.counters[b],
        m.counted(a).phase_ns == m.phase_ns,
        m.counted(a).phase_n == m.phase_n,
{
    assert(m.counted(a).counted(b) =~= m.counted(b).counted(a));
}

} // verus!
