use rustwasgi::asgi::ResponseEvent;
use rustwasgi::headers::{RequestHead, Version};
use rustwasgi::metrics;
use rustwasgi::metrics::{Metrics, Row};
use rustwasgi::server::exchange::{
    handle_http, Access, Effects, Ending, Event, Exchange, Line, Reply, Stage,
};
use rustwasgi::server::request_data;

fn run(x: &mut Exchange, events: Vec<Event>) -> Vec<Effects> {
    events.into_iter().map(|e| x.step(e)).collect()
}

/// A body event; its bytes tell its length.
fn body(len: u8, more: bool) -> Event {
    Event::Body { data: chunk(len), more }
}

fn chunk(len: u8) -> Vec<u8> {
    vec![len; len as usize]
}

#[test]
fn plain_get() {
    let mut x = Exchange::new(false, false);
    let fx = run(
        &mut x,
        vec![
            Event::Established,
            Event::Start { status: 200 },
            body(5, true),
            Event::Sent,
            Event::AppDone { raised: false },
            body(7, false),
            Event::Sent,
        ],
    );
    assert!(fx[0].time_establish);
    assert_eq!(fx[1].reply, Reply::Head);
    assert_eq!(fx[1].count, Some(metrics::C_SPAWNS));
    assert!(fx[1].time_total);
    let wire: Vec<u8> = fx.iter().filter_map(|f| f.forward.clone()).flatten().collect();
    assert_eq!(wire, [chunk(5), chunk(7)].concat());
    assert_eq!(fx[2].forward, Some(chunk(5)));
    assert_eq!(fx[5].forward, Some(chunk(7)));
    assert_eq!(fx[4].count, Some(metrics::C_APPDONE_PUMP));
    assert!(fx[4].time_app && !fx[4].traceback);
    assert!(fx[6].close && fx[6].release && fx[6].time_pump && !fx[6].poll);
    assert_eq!(fx[6].access, Some(Access { status: 200, size: 12 }));
    assert_eq!(x.stage, Stage::Done);
}

#[test]
fn head_counts_but_forwards_nothing() {
    let mut x = Exchange::new(true, false);
    let fx = run(
        &mut x,
        vec![
            Event::Established,
            Event::Start { status: 200 },
            body(5, true),
            body(6, false),
            Event::Polled { done: true, raised: false },
        ],
    );
    assert!(fx.iter().all(|f| f.forward.is_none()));
    assert!(fx[3].close && fx[3].poll);
    assert_eq!(fx[4].access, Some(Access { status: 200, size: 11 }));
    assert_eq!(fx[4].count, Some(metrics::C_APPDONE_NOWNOVER));
}

#[test]
fn body_before_start_is_a_failure_without_an_entry() {
    let mut x = Exchange::new(false, true);
    let fx = run(&mut x, vec![Event::Established, body(1, false)]);
    assert_eq!(fx[1].line, Some(Line::BodyBeforeStart));
    assert!(fx[1].disconnect && fx[1].reap && fx[1].release);
    assert_eq!(fx[1].reply, Reply::Failure);
    assert_eq!(fx[1].access, None);
    assert_eq!(Line::BodyBeforeStart.text(), "ERROR rustwasgi: app sent body before response.start");
}

#[test]
fn failures_before_the_response() {
    let failure = Some(Access { status: 500, size: 0 });
    let mut x = Exchange::new(false, false);
    let fx = x.step(Event::EstablishFailed);
    assert_eq!((fx.reply, fx.access, fx.reap, fx.release), (Reply::Failure, failure, false, true));
    assert_eq!(fx.line, Some(Line::EstablishFailed));

    let mut x = Exchange::new(false, false);
    let fx = run(&mut x, vec![Event::Established, Event::SinkClosed]);
    assert_eq!((fx[1].reply, fx[1].access, fx[1].reap), (Reply::Failure, failure, true));
    assert_eq!(fx[1].line, None);
    let fx = x.step(Event::Reaped { ending: Ending::Raised });
    assert!(fx.traceback && fx.time_app);
    assert_eq!(fx.count, Some(metrics::C_APPDONE_REAPER));

    let mut x = Exchange::new(false, false);
    let fx = run(&mut x, vec![Event::Established, Event::Deadline]);
    assert_eq!((fx[1].reply, fx[1].access, fx[1].reap), (Reply::Failure, failure, true));
    assert_eq!(
        fx[1].line.map(|l| l.text()),
        Some("ERROR rustwasgi: app did not respond in time; returning 500")
    );
    let fx = x.step(Event::Reaped { ending: Ending::TimedOut });
    assert_eq!(
        fx.line.map(|l| l.text()),
        Some("ERROR rustwasgi: ASGI application timed out; dropping")
    );
    assert!(!fx.traceback);
}

#[test]
fn traceback_is_printed_once() {
    let mut x = Exchange::new(false, false);
    let fx = run(
        &mut x,
        vec![Event::Established, Event::AppDone { raised: true }, Event::SinkClosed],
    );
    assert!(fx[1].traceback && fx[1].time_app);
    assert_eq!(fx[1].count, Some(metrics::C_APPDONE_A));
    let fx = x.step(Event::Reaped { ending: Ending::Raised });
    assert!(!fx.traceback && !fx.time_app);
    assert_eq!(fx.line, None);
}

#[test]
fn client_that_goes_away() {
    let mut x = Exchange::new(false, true);
    let fx = run(
        &mut x,
        vec![
            Event::Established,
            Event::Fed { more: true },
            Event::Start { status: 200 },
            Event::Start { status: 404 },
            Event::Fed { more: false },
            body(9, true),
            Event::SendFailed,
            Event::Polled { done: false, raised: false },
        ],
    );
    assert_eq!(
        fx[3].line.map(|l| l.text()),
        Some("WARN rustwasgi: duplicate response.start ignored")
    );
    assert!(!x.feeding);
    assert!(fx[6].gone && fx[6].disconnect && fx[6].close && fx[6].poll);
    assert!(fx[7].reap && fx[7].release);
    assert_eq!(fx[7].access, Some(Access { status: 200, size: 9 }));
    assert!(x.reaping);
}

#[test]
fn empty_body_is_not_forwarded() {
    let mut x = Exchange::new(false, false);
    let fx = run(
        &mut x,
        vec![
            Event::Established,
            Event::AppDone { raised: false },
            Event::Start { status: 204 },
            body(0, false),
        ],
    );
    assert!(fx[3].forward.is_none() && fx[3].close && fx[3].release);
    assert_eq!(fx[3].access, Some(Access { status: 204, size: 0 }));
}

#[test]
fn response_events_become_events() {
    let headers = vec![(b"x-a".to_vec(), b"1".to_vec())];
    let start = ResponseEvent::Start { status: 201, headers: headers.clone() };
    let (event, kept) = Event::of_response(Some(start));
    assert!(matches!(event, Event::Start { status: 201 }));
    assert_eq!(kept, headers);
    let (event, kept) =
        Event::of_response(Some(ResponseEvent::Body { data: chunk(3), more_body: true }));
    assert!(matches!(event, Event::Body { data, more: true } if data == chunk(3)));
    assert!(kept.is_empty());
    assert!(matches!(Event::of_response(None).0, Event::SinkClosed));
}

#[test]
fn response_that_takes_too_long() {
    let mut x = Exchange::new(false, false);
    let fx = run(
        &mut x,
        vec![Event::Established, Event::Start { status: 200 }, Event::Deadline],
    );
    assert_eq!(fx[2].count, Some(metrics::C_APPDONE_DEADLINE));
    assert_eq!(fx[2].line, Some(Line::TimedOut));
    assert!(fx[2].close && fx[2].poll && !fx[2].release);
}

#[test]
fn exchanges_begin_with_a_request() {
    let begin = |method: &str, length: &str| {
        let head = RequestHead {
            method: method.to_string(),
            version: Version::Http11,
            scheme: None,
            path: "/".to_string(),
            query: None,
            headers: vec![("content-length".to_string(), length.as_bytes().to_vec())],
        };
        let mut m = Metrics::new(Some("1"));
        let x = handle_http(&mut m, &request_data(&head, "", "", 0, "", 0));
        assert!(matches!(metrics::report(&m)[6], Row::Count { name: "requests", count: 1 }));
        x
    };
    assert_eq!(begin("HEAD", "0"), Exchange::new(true, false));
    assert_eq!(begin("head", "0"), Exchange::new(false, false));
    assert_eq!(begin("POST", "3"), Exchange::new(false, true));
}
