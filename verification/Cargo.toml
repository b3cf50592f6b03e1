[package]
name = "rustwasgi"
version = "0.1.0"
edition = "2021"
publish = false

[dependencies]
arc-swap = "1"
bytes = "1"
futures-util = "0.3"
http = "1"
http-body-util = { version = "0.1", features = ["channel"] }
hyper = { version = "1", features = ["http1", "server"] }
hyper-util = { version = "0.1", features = ["tokio"] }
instant-acme = { version = "0.7", default-features = false, features = ["hyper-rustls", "aws-lc-rs"] }
pyo3 = "0.29"
pyo3-async-runtimes = { version = "0.29", features = ["tokio-runtime"] }
rcgen = { version = "0.13", default-features = false, features = ["aws_lc_rs", "crypto", "pem"] }
rustls = "0.23"
rustls-pemfile = "2"
serde = { version = "1", features = ["derive"] }
serde_json = "1"
thiserror = "2"
tokio = { version = "1", features = ["full"] }
tokio-rustls = "0.26"
tokio-tungstenite = "0.29"
x509-parser = "0.18"
