//! TLS: certificates and keys, the configuration made of them, and the answers
//! to ACME challenges.

pub mod challenge;
pub mod config;
pub mod resolver;
pub mod reload;
