use rustwasgi::lifespan::{
    build_lifespan_scope, handshake_message, is_timeout_error, queue_get_error,
    queue_get_refused, queue_put_error, startup_reply, wait_startup_reply, Handshake,
    LifespanError, LifespanManager, LifespanMode, QueueFailure, Slice, Stage, Verdict,
};
use rustwasgi::metrics::{
    attached, enabled, inc, inc_acme_challenge_hit, inc_tls_handshake, inc_tls_handshake_error,
    phase, report, Metrics, Row, C_REQUESTS, C_SPAWNS, P_PUMP, TABLE_HEAD,
};
use rustwasgi::runtime::{
    import_app, insert_cwd, may_submit, stop_again, stop_asyncio_loop, FlightGuard,
};
use rustwasgi::value::Value;

fn text(s: &str) -> Value {
    Value::Str(s.to_string())
}

fn dict(entries: Vec<(&str, Value)>) -> Value {
    Value::Dict(entries.into_iter().map(|(k, v)| (k.to_string(), v)).collect())
}

#[test]
fn modes_by_name() {
    assert_eq!(LifespanMode::parse("OFF"), LifespanMode::Off);
    assert_eq!(LifespanMode::parse("on"), LifespanMode::On);
    assert_eq!(LifespanMode::parse("auto"), LifespanMode::Auto);
    assert_eq!(LifespanMode::parse("offf"), LifespanMode::Auto);
}

#[test]
fn replies_to_startup() {
    let complete = dict(vec![("type", text("lifespan.startup.complete"))]);
    assert!(matches!(startup_reply(&complete), Ok(false)));
    let stated = dict(vec![
        ("type", text("lifespan.startup.complete")),
        ("state", Value::Null),
    ]);
    assert!(matches!(startup_reply(&stated), Ok(true)));
    let failed = dict(vec![("type", text("lifespan.startup.failed")), ("message", text("no db"))]);
    match startup_reply(&failed) {
        Err(e) => assert_eq!(e.message(), "lifespan startup failed: no db"),
        Ok(_) => panic!("started"),
    }
    let failed = dict(vec![("type", text("lifespan.startup.failed"))]);
    assert!(matches!(startup_reply(&failed), Err(LifespanError::Failed(m)) if m == "unknown"));
    match startup_reply(&dict(vec![("type", text("what"))])) {
        Err(e) => {
            assert_eq!(e.message(), "lifespan unsupported: unexpected lifespan reply \"what\"");
        }
        Ok(_) => panic!("started"),
    }
    match startup_reply(&Value::Null) {
        Err(e) => assert_eq!(e.message(), "lifespan unsupported: unexpected lifespan reply \"\""),
        Ok(_) => panic!("started"),
    }
}

#[test]
fn start_up_stage_by_stage() {
    let mut m = LifespanManager::startup();
    let mut n = 0;
    while m.stage != Stage::AwaitReply {
        assert!(m.advance(Ok(())).is_ok());
        n += 1;
    }
    assert_eq!(n, 8);
    let stated = dict(vec![
        ("type", text("lifespan.startup.complete")),
        ("state", dict(vec![])),
    ]);
    assert!(m.replied(&stated).is_ok());
    assert!(m.has_state);
    assert!(m.shutdown());
    assert!(m.shutdown_put(true));
    assert_eq!(
        m.shutdown_got(Ok(dict(vec![
            ("type", text("lifespan.shutdown.failed")),
            ("message", text("stuck"))
        ]))),
        Some("ERROR rustwasgi: lifespan.shutdown.failed: stuck".to_string())
    );
    assert_eq!(m.stage, Stage::Over);
    assert!(!m.shutdown());
}

#[test]
fn start_up_that_fails() {
    let texts = vec![
        "could not create lifespan channel",
        "could not submit lifespan init",
        "lifespan init timed out",
        "bad lifespan channel",
        "could not build lifespan scope",
        "could not call lifespan app",
        "could not submit lifespan app",
        "detail",
    ];
    for (i, expected) in texts.iter().enumerate() {
        let mut m = LifespanManager::startup();
        for _ in 0..i {
            assert!(m.advance(Ok(())).is_ok());
        }
        match m.advance(Err("detail".to_string())) {
            Err(LifespanError::Unsupported(t)) => assert_eq!(&t, expected),
            other => panic!("{other:?}"),
        }
        assert_eq!(m.stage, Stage::Over);
        assert!(!m.shutdown());
    }
    let mut m = LifespanManager::startup();
    while m.stage != Stage::AwaitReply {
        assert!(m.advance(Ok(())).is_ok());
    }
    let e = m.give_up("late".to_string());
    assert_eq!(e.message(), "lifespan unsupported: late");
}

#[test]
fn shutdown_without_an_answer() {
    let mut m = LifespanManager { stage: Stage::Running, has_state: false };
    assert!(m.shutdown());
    assert!(!m.shutdown_put(false));
    assert_eq!(m.stage, Stage::Over);
    let mut m = LifespanManager { stage: Stage::AwaitShutdown, has_state: false };
    assert_eq!(
        m.shutdown_got(Err("gone".to_string())),
        Some("WARN rustwasgi: lifespan shutdown: gone".to_string())
    );
    let mut m = LifespanManager { stage: Stage::AwaitShutdown, has_state: false };
    let complete = dict(vec![("type", text("lifespan.shutdown.complete"))]);
    assert_eq!(m.shutdown_got(Ok(complete)), None);
}

#[test]
fn waiting_for_the_reply() {
    assert!(matches!(wait_startup_reply(Slice::Reply), Verdict::Take));
    let nothing = |app_done, elapsed_ns| wait_startup_reply(Slice::Nothing { app_done, elapsed_ns });
    assert!(matches!(nothing(false, 29_999_999_999), Verdict::LookAgain));
    match nothing(false, 30_000_000_000) {
        Verdict::GiveUp(s) => {
            assert_eq!(s, "lifespan reply timed out (app may not support lifespan)");
        }
        other => panic!("{other:?}"),
    }
    match nothing(true, 0) {
        Verdict::GiveUp(s) => assert_eq!(s, "app exited without a lifespan reply (unsupported)"),
        other => panic!("{other:?}"),
    }
    match wait_startup_reply(Slice::Failed) {
        Verdict::GiveUp(s) => assert_eq!(s, "lifespan reply failed"),
        other => panic!("{other:?}"),
    }
    assert!(is_timeout_error(Some("TimeoutError")));
    assert!(!is_timeout_error(Some("ValueError")));
    assert!(!is_timeout_error(None));
    assert_eq!(queue_get_error(false), "lifespan reply failed");
}

#[test]
fn queue_failures_have_texts() {
    let e = || "e".to_string();
    assert_eq!(queue_put_error(QueueFailure::Message(e())), "dict: e");
    assert_eq!(queue_put_error(QueueFailure::Call(e())), "queue.put: e");
    assert_eq!(queue_put_error(QueueFailure::Submit(e())), "submit: e");
    assert_eq!(queue_put_error(QueueFailure::Ended), "queue.put failed");
    assert_eq!(queue_get_refused(QueueFailure::Call(e())), "queue.get: e");
    assert_eq!(queue_get_refused(QueueFailure::Submit(e())), "submit: e");
}

#[test]
fn lifespan_messages() {
    match build_lifespan_scope() {
        Value::Dict(m) => {
            assert_eq!(m.len(), 3);
            assert!(matches!(&m[0].1, Value::Str(s) if s == "lifespan"));
            assert!(matches!(&m[2].1, Value::Dict(d) if d.is_empty()));
        }
        _ => panic!("no mapping"),
    }
    match handshake_message(Handshake::Shutdown) {
        Value::Dict(m) => assert!(matches!(&m[0].1, Value::Str(s) if s == "lifespan.shutdown")),
        _ => panic!("no mapping"),
    }
    match handshake_message(Handshake::Startup) {
        Value::Dict(m) => assert!(matches!(&m[0].1, Value::Str(s) if s == "lifespan.startup")),
        _ => panic!("no mapping"),
    }
}

#[test]
fn metrics_count_only_when_on() {
    let mut off = Metrics::new(None);
    assert!(!enabled(&off));
    inc(&mut off, C_REQUESTS);
    assert!(report(&off).is_empty());
    assert!(!enabled(&Metrics::new(Some("0"))));
    let mut on = Metrics::new(Some("1"));
    inc(&mut on, C_REQUESTS);
    inc(&mut on, C_REQUESTS);
    inc(&mut on, C_SPAWNS);
    inc_tls_handshake(&mut on);
    inc_tls_handshake_error(&mut on);
    inc_acme_challenge_hit(&mut on);
    phase(&mut on, P_PUMP, 1500);
    phase(&mut on, P_PUMP, 500 + (1u128 << 64));
    attached(&mut on, 7, 73);
    let rows = report(&on);
    assert_eq!(rows.len(), 25);
    assert!(matches!(rows[2], Row::Phase { name: "pump", n: 2, ns: 2000 }));
    assert!(matches!(rows[4], Row::Phase { name: "attach_wait", n: 1, ns: 7 }));
    assert!(matches!(rows[5], Row::Phase { name: "attach_hold", n: 1, ns: 73 }));
    assert!(matches!(rows[6], Row::Count { name: "requests", count: 2 }));
    assert!(matches!(rows[7], Row::Ratio { name: "tokio_spawns", count: 1, requests: 2 }));
    assert!(matches!(rows[18], Row::Ratio { name: "tls_handshakes", count: 1, .. }));
    assert!(matches!(rows[19], Row::Ratio { name: "tls_handshake_errors", count: 1, .. }));
    assert!(matches!(rows[23], Row::Ratio { name: "acme_challenge_hits", count: 1, .. }));
    assert!(matches!(rows[24], Row::Attach { n: 1, ns: 80 }));
    let fresh = report(&Metrics::new(Some("1")));
    assert!(matches!(fresh[7], Row::Ratio { count: 0, requests: 1, .. }));
}

#[test]
fn report_lines_of_the_table() {
    assert_eq!(TABLE_HEAD, "---- request-path profile ----");
    let mut m = Metrics::new(Some("1"));
    for _ in 0..100 {
        inc(&mut m, C_REQUESTS);
    }
    attached(&mut m, 1000, 500);
    let rows = report(&m);
    assert_eq!(rows[0].line("0.000"), "phase establish    n=       0 mean=    0.000us");
    assert_eq!(rows[6].line(""), "requests: 100");
    assert_eq!(rows[7].line("2.000"), "tokio_spawns/request: 2.000");
    assert_eq!(rows[8].line("0.500"), "into_future/request: 0.500");
    assert_eq!(rows[11].line("1.000"), "python_attaches/request: 1.000");
    assert_eq!(rows[24].line("1.500"), "attach_mean_us: 1.500");
    let long = Row::Phase { name: "longer_than_12", n: 123456789, ns: 0 };
    assert_eq!(long.line("1234567.890"), "phase longer_than_12 n=123456789 mean=1234567.890us");
}

#[test]
fn specifiers_become_plans() {
    match import_app("pkg.mod:make.app()") {
        Some(p) => {
            assert_eq!(p.module, "pkg.mod");
            assert_eq!(p.attributes, vec!["make".to_string(), "app".to_string()]);
            assert!(p.call && !p.broken);
        }
        None => panic!("no plan"),
    }
    match import_app("m:a:b") {
        Some(p) => {
            assert_eq!(p.module, "m");
            assert_eq!(p.attributes, vec!["a:b".to_string()]);
            assert!(!p.call && !p.broken);
        }
        None => panic!("no plan"),
    }
    match import_app("m:a..b") {
        Some(p) => {
            assert_eq!(p.attributes, vec!["a".to_string()]);
            assert!(p.broken);
        }
        None => panic!("no plan"),
    }
    match import_app("m:()") {
        Some(p) => {
            assert!(p.attributes.is_empty());
            assert!(p.broken && p.call);
        }
        None => panic!("no plan"),
    }
    assert!(import_app("m").is_none());
    assert!(import_app(":a").is_none());
    assert!(import_app("m:").is_none());
}

#[test]
fn small_decisions_of_the_runtime() {
    assert!(insert_cwd(Some(false)));
    assert!(!insert_cwd(Some(true)));
    assert!(!insert_cwd(None));
    assert!(stop_asyncio_loop(Some(true)));
    assert!(!stop_asyncio_loop(None));
    assert!(stop_again(2, true));
    assert!(!stop_again(3, true));
    assert!(!stop_again(0, false));
    assert!(may_submit(None));
    assert!(!may_submit(Some(false)));
    let mut n: usize = 0;
    let a = FlightGuard::new(&mut n);
    let b = FlightGuard::new(&mut n);
    assert_eq!(n, 2);
    a.release(&mut n);
    b.release(&mut n);
    assert_eq!(n, 0);
}
