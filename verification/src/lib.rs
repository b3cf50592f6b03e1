//! Core of an ASGI server worker.

pub mod acme;
pub mod asgi;
pub mod bench;
pub mod channel;
pub mod cli;
pub mod headers;
pub mod lifespan;
pub mod metrics;
pub mod process;
pub mod runtime;
pub mod server;
pub mod socket;
pub mod text;
pub mod tls;
pub mod value;
pub mod ws;
