use rustwasgi::socket::{
    bind_address, bind_inherited, bind_standalone, parse_family, Adoption, Bind, BoundListener,
    Family, InheritedSocket,
};
use rustwasgi::text::{split_on, to_decimal, trim};

fn socket(family: &str, fd: i32) -> InheritedSocket {
    InheritedSocket::from_raw(family.to_string(), fd, format!("{family} {fd}"))
}

#[test]
fn sockets_are_adopted_in_order() {
    let mut b = bind_inherited(vec![socket("tcp4", 5), socket("unix", 6), socket("unix", 7)]);
    assert_eq!(b.next(), Ok(Some((5, Family::Tcp))));
    let tcp = Adoption::Tcp { host: "::1".to_string(), port: 80 };
    assert_eq!(b.tried(Family::Tcp, tcp), Ok(()));
    assert_eq!(b.next(), Ok(Some((6, Family::Unix))));
    let unix = Adoption::Unix { path: Some("/run/x".to_string()) };
    assert_eq!(b.tried(Family::Unix, unix), Ok(()));
    assert_eq!(b.tried(Family::Unix, Adoption::Unix { path: None }), Ok(()));
    assert_eq!(b.next(), Ok(None));
    match b.finish() {
        Ok(v) => {
            assert_eq!(v.len(), 3);
            assert!(matches!(v[0], BoundListener::Tcp { .. }));
            assert!(matches!(v[1], BoundListener::Unix { .. }));
            assert_eq!(v[0].description(), "tcp4 5");
            assert_eq!(v[0].server_address(), ("::1", 80));
            assert_eq!(v[1].server_address(), ("/run/x", 0));
            assert_eq!(v[2].server_address(), ("<unnamed unix socket>", 0));
            assert_eq!(v[2].description(), "unix 7");
        }
        Err(e) => panic!("{e}"),
    }
}

#[test]
fn adoption_errors_have_texts() {
    let e = || "e".to_string();
    let err = |family: &str, kind: Family, outcome: Adoption| {
        let mut b = bind_inherited(vec![socket(family, 1)]);
        b.tried(kind, outcome).err()
    };
    let tcp = Family::Tcp;
    assert_eq!(
        err("tcp", tcp, Adoption::NonblockingFailed(e())),
        Some("failed to set nonblocking: e".to_string())
    );
    assert_eq!(
        err("tcp6", tcp, Adoption::AddressFailed(e())),
        Some("getsockname failed: e".to_string())
    );
    assert_eq!(
        err("tcp4", tcp, Adoption::ListenerFailed(e())),
        Some("tokio TcpListener failed: e".to_string())
    );
    assert_eq!(
        err("unix", Family::Unix, Adoption::ListenerFailed(e())),
        Some("tokio UnixListener failed: e".to_string())
    );
    assert_eq!(
        bind_inherited(vec![socket("udp", 1)]).next(),
        Err("unsupported socket family \"udp\" (want tcp4/tcp6/unix)".to_string())
    );
    assert_eq!(parse_family("tcp6"), Ok(Family::Tcp));
    assert_eq!(
        bind_inherited(vec![]).finish().err(),
        Some("no listening sockets provided".to_string())
    );
}

#[test]
fn standalone_listener() {
    assert_eq!(bind_address("127.0.0.1", 8000), "127.0.0.1:8000");
    let bound = Bind::Bound {
        local: "127.0.0.1:8000".to_string(),
        host: "127.0.0.1".to_string(),
        port: 8000,
    };
    match bind_standalone("127.0.0.1", 8000, bound) {
        Ok(BoundListener::Tcp { host, port, description }) => {
            assert_eq!((host.as_str(), port), ("127.0.0.1", 8000));
            assert_eq!(description, "http://127.0.0.1:8000");
        }
        other => panic!("{other:?}"),
    }
    let e = || "e".to_string();
    assert_eq!(
        bind_standalone("x", 1, Bind::Invalid(e())).err(),
        Some("invalid bind address x:1: e".to_string())
    );
    assert_eq!(
        bind_standalone("x", 1, Bind::Refused { address: "a:1".to_string(), error: e() }).err(),
        Some("failed to bind a:1: e".to_string())
    );
    assert_eq!(
        bind_standalone("x", 1, Bind::AddressFailed(e())).err(),
        Some("getsockname failed: e".to_string())
    );
}

#[test]
fn texts_are_cut_and_shown() {
    assert_eq!(split_on("a,,b,", ','), vec!["a", "", "b", ""]);
    assert_eq!(split_on("", ','), vec![""]);
    assert_eq!(trim(" \u{a0}a b\u{3000}\t"), "a b");
    assert_eq!(to_decimal(0), "0");
    assert_eq!(to_decimal(18446744073709551615), "18446744073709551615");
}
