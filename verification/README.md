# rustwasgi

The core of an ASGI server worker, verified with Verus, and the native Python
extension around it.

An ASGI server calls a Python application once per request or WebSocket, with a
scope that describes the connection, a `receive()` that yields events and a
`send()` that takes them. This worker serves HTTP/1.1 and WebSockets, runs the
lifespan handshakes, stops gracefully or quickly, and renews its certificates.
It runs stand-alone or under Gunicorn.

## Layout

- `src/` is the library. It holds the rules of the server and opens no socket,
  reads no file and calls no interpreter. Whoever does reports what happened and
  carries out what comes back.
- `app/` is the extension: Tokio, hyper, PyO3, files and sockets.
- `tests/` runs the library on concrete values, with the outside crates linked.

| Module | What it states |
|---|---|
| `asgi` | which messages of an application are accepted, the scope of a request, how a call is set up, how paths are unescaped |
| `headers` | what is read from the head of a request, and whether a body follows |
| `server` | responses, upgrades, feeding of bodies, the access log |
| `server::exchange` | one HTTP exchange from set-up to the release of its guard |
| `server::worker` | signals, heartbeats, the quota of requests, the drain |
| `ws`, `ws::driver` | WebSocket messages, the handshake, and one connection |
| `lifespan` | the two handshakes and what their replies mean |
| `process` | arguments and environment, and one process from start to end |
| `socket` | listeners, handed over or bound |
| `tls`, `acme` | certificates and keys, their choice by name, challenges, installation and renewal |
| `runtime`, `cli`, `metrics`, `bench` | specifiers of applications, configuration, counters, the microbenchmark |
| `value`, `text`, `channel` | plain values, text routines, the hand-over to a channel |

## How contracts are stated

Objects of the application appear as `Value`; its content is a `Term`, and every
rule is a spec function over terms. `Exchange`, `Driver`, `Worker`, `Process`,
`LifespanManager` and `Issuance` are machines. A machine has a spec function
`next` from state and event to state and effects, or a contract per step, and
its laws are public proof functions over every series of events that can happen.
Among them: every exchange answers exactly once and releases its guard exactly
once; the application's end is logged once; at most one close frame is sent; the
application hears of a connection first and of its end last; nothing is served
before the first handshake; a graceful stop drains first.

What an outside crate computes stands behind a small wrapper whose comment says
what is believed of it. Results that take pages to state are named and not
described.

Times, files, sockets and floating-point figures stay in `app/`.
