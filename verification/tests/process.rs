use rustwasgi::bench::{bench_json, bench_plan, Run};
use rustwasgi::cli::{Security, ServerConfig};
use rustwasgi::lifespan::{LifespanError, LifespanMode};
use rustwasgi::process::{
    acme_start, cancel_pending_tasks, resolve_security, serve_config, split_list,
    standalone_config, tls_plan, tokio_worker_threads, worker_config, workers_warning, AcmeStart,
    Environment, Event, Process, Stage, Sweep, SweepOutcome, TlsPlan,
};

fn nothing() -> Environment {
    Environment {
        acme_domains: None,
        tls_cert: None,
        tls_key: None,
        redirect: None,
        acme_directory: None,
        acme_email: None,
        acme_dir: None,
    }
}

fn some(s: &str) -> Option<String> {
    Some(s.to_string())
}

#[test]
fn arguments_count_more_than_the_environment() {
    let mut env = nothing();
    env.acme_domains = some(" a.com, ,b.com ,");
    env.tls_cert = some("");
    env.tls_key = some("key.pem");
    env.redirect = some("1");
    env.acme_directory = some("");
    env.acme_email = some("me@x");
    env.acme_dir = some("/acme");
    let r = resolve_security(Security::none(), env);
    assert_eq!(r.acme_domains, vec!["a.com".to_string(), "b.com".to_string()]);
    assert_eq!(r.tls_cert, None);
    assert_eq!(r.tls_key, some("key.pem"));
    assert!(r.redirect_http_to_https);
    assert_eq!(r.acme_directory, some(""));
    assert_eq!(r.acme_email, some("me@x"));
    assert_eq!(r.acme_dir, some("/acme"));

    let mut args = Security::none();
    args.acme_domains = vec!["c.com".to_string()];
    args.tls_cert = some("cert.pem");
    let mut env = nothing();
    env.acme_domains = some("a.com");
    env.tls_cert = some("other.pem");
    env.redirect = some("yes");
    let r = resolve_security(args, env);
    assert_eq!(r.acme_domains, vec!["c.com".to_string()]);
    assert_eq!(r.tls_cert, some("cert.pem"));
    assert!(!r.redirect_http_to_https);
    assert!(split_list("").is_empty());
}

#[test]
fn configurations() {
    let c = worker_config("gunicorn", "/p", "on", true, Security::none());
    assert_eq!(
        (c.app_spec.as_str(), c.host.as_str(), c.port, c.workers),
        ("gunicorn", "", 0, 1)
    );
    assert_eq!((c.log_level.as_str(), c.lifespan.as_str()), ("info", "on"));
    let c = standalone_config("a:b", "h", 80, 2, "quiet", "", "auto", false, Security::none());
    assert_eq!((c.app_spec.as_str(), c.host.as_str(), c.port, c.workers), ("a:b", "h", 80, 2));
    let s = serve_config(&c, "a:b".to_string(), 10, 0, 0, 7);
    assert_eq!((s.graceful_timeout, s.heartbeat_interval), (1, 1));
    assert_eq!((s.max_requests, s.keep_alive_secs), (10, 7));
    let s = serve_config(&c, "a:b".to_string(), 10, 30, 60, 0);
    assert_eq!((s.graceful_timeout, s.heartbeat_interval), (30, 60));
    assert_eq!(workers_warning(1), None);
    assert_eq!(
        workers_warning(4),
        some(
            "workers=4 requested but standalone mode runs a single worker; \
             use Gunicorn (rustwasgi.gunicorn.RustWASGIWorker) for multi-worker"
        )
    );
}

#[test]
fn log_lines_by_level() {
    let c = |level: &str| {
        ServerConfig::new(
            "a:b".to_string(),
            "h".to_string(),
            1,
            1,
            level.to_string(),
            String::new(),
            "auto".to_string(),
            false,
        )
    };
    assert_eq!(c("info").log_info("hi"), some("INFO rustwasgi: hi"));
    assert_eq!(c("error").log_warn("hi"), some("WARN rustwasgi: hi"));
    assert_eq!(c("Quiet").log_info("hi"), None);
    assert_eq!(c("SILENT").log_warn("hi"), None);
}

#[test]
fn threads_of_a_worker() {
    assert_eq!(tokio_worker_threads(Some("2"), Some(8)), 2);
    assert_eq!(tokio_worker_threads(Some("+3"), Some(8)), 3);
    assert_eq!(tokio_worker_threads(Some("0"), Some(8)), 8);
    assert_eq!(tokio_worker_threads(Some(" 2"), Some(8)), 8);
    assert_eq!(tokio_worker_threads(Some("x"), None), 4);
    assert_eq!(tokio_worker_threads(None, Some(16)), 16);
}

#[test]
fn certificate_and_key_belong_together() {
    let mut s = Security::none();
    assert!(matches!(tls_plan(&s), Ok(TlsPlan::Plain)));
    s.tls_cert = some("c");
    assert_eq!(
        tls_plan(&s).err(),
        Some("both --tls-cert and --tls-key must be provided")
    );
    s.tls_key = some("k");
    assert!(matches!(tls_plan(&s), Ok(TlsPlan::Load { cert, key }) if cert == "c" && key == "k"));
    s.tls_cert = None;
    assert!(tls_plan(&s).is_err());
}

#[test]
fn renewal_needs_tls() {
    let plain = worker_config("a", "", "auto", false, Security::none());
    assert_eq!(acme_start(&plain, true), AcmeStart::Off);
    let mut s = Security::none();
    s.acme_domains = vec!["a.com".to_string()];
    s.acme_email = some("me@a.com");
    let c = plain.secured(s);
    assert!(c.is_acme_enabled());
    assert_eq!(acme_start(&c, false), AcmeStart::NoTls);
    assert_eq!(acme_start(&c, true), AcmeStart::Start);
}

#[test]
fn life_of_a_process() {
    let mut p = Process::new(LifespanMode::Auto);
    assert_eq!(p.stage, Stage::Startup);
    let line = p.startup_over(Ok(true));
    assert_eq!(line, Ok("INFO rustwasgi: lifespan startup complete".to_string()));
    assert!(p.has_state);
    p.step(Event::Served { ok: true });
    assert_eq!(p.stage, Stage::Shutdown);
    p.step(Event::ShutDown);
    p.step(Event::Cleaned);
    assert_eq!(p.stage, Stage::Stopping);
    p.step(Event::Stopped);
    assert_eq!(p.stage, Stage::Done);
}

#[test]
fn lifespan_modes_decide() {
    let unsupported = || LifespanError::Unsupported("why".to_string());
    let failed = || LifespanError::Failed("boom".to_string());
    let mut p = Process::new(LifespanMode::Auto);
    assert_eq!(
        p.startup_over(Err(unsupported())),
        Ok("INFO rustwasgi: lifespan unsupported, continuing (why)".to_string())
    );
    assert_eq!(p.stage, Stage::Serving);
    p.step(Event::Served { ok: true });
    assert_eq!(p.stage, Stage::Cleanup);
    let mut p = Process::new(LifespanMode::On);
    assert_eq!(
        p.startup_over(Err(unsupported())),
        Err("lifespan startup failed: lifespan unsupported: why".to_string())
    );
    assert_eq!(p.stage, Stage::Failed);
    let mut p = Process::new(LifespanMode::Auto);
    assert_eq!(
        p.startup_over(Err(failed())),
        Err("lifespan startup failed: lifespan startup failed: boom".to_string())
    );
    assert_eq!(p.stage, Stage::Failed);
    let mut p = Process::new(LifespanMode::Off);
    assert_eq!(p.stage, Stage::Serving);
    p.step(Event::Served { ok: false });
    assert_eq!(p.stage, Stage::Failed);
}

#[test]
fn leftover_tasks_are_cancelled() {
    let ok = |stage, outcome| cancel_pending_tasks(stage, outcome);
    assert_eq!(ok(Sweep::Barrier, SweepOutcome::Good), Ok(Sweep::AwaitBarrier));
    assert_eq!(ok(Sweep::AwaitBarrier, SweepOutcome::TimedOut), Ok(Sweep::Cancel));
    assert_eq!(ok(Sweep::Cancel, SweepOutcome::Good), Ok(Sweep::AwaitCancel));
    assert_eq!(ok(Sweep::AwaitCancel, SweepOutcome::Good), Ok(Sweep::Swept));
    assert_eq!(
        ok(Sweep::Barrier, SweepOutcome::Bad("e".to_string())),
        Err("WARN rustwasgi: loop cleanup: e".to_string())
    );
    assert_eq!(
        ok(Sweep::AwaitCancel, SweepOutcome::TimedOut),
        Err("WARN rustwasgi: loop cleanup: cleanup timed out".to_string())
    );
    assert_eq!(
        ok(Sweep::AwaitCancel, SweepOutcome::Bad("e".to_string())),
        Err("WARN rustwasgi: loop cleanup: cleanup failed".to_string())
    );
}

#[test]
fn benchmark_plan() {
    let run = |level, per_task| Run { level, per_task };
    assert_eq!(bench_plan(1, 10), vec![run(1, 10)]);
    assert_eq!(bench_plan(0, 10), vec![run(1, 10)]);
    assert_eq!(bench_plan(6, 100), vec![run(1, 100), run(4, 25), run(6, 16)]);
    assert_eq!(bench_plan(8, 3), vec![run(1, 3), run(4, 1), run(8, 1)]);
    assert_eq!(bench_plan(1000, 64).len(), 7);
    assert_eq!(
        bench_json(&bench_plan(4, 8), &vec!["0.150".to_string(), "0.145".to_string()]),
        "{\"1\": 0.150, \"4\": 0.145}"
    );
    assert_eq!(bench_json(&vec![], &vec![]), "{}");
}
