[package]
name = "swe-edge-egress-grpc"
version = "0.1.0"
edition = "2021"
publish = false

[dependencies]
bytes = "1"
futures = "0.3"
http = "1"
http-body-util = "0.1"
hyper-rustls = { version = "0.27", default-features = false, features = ["http2", "ring", "webpki-roots", "tls12"] }
hyper-util = { version = "0.1", features = ["client-legacy", "http2", "tokio"] }
serde = { version = "1", features = ["derive"] }
thiserror = "2"
tokio = { version = "1", features = ["rt-multi-thread", "macros", "time", "net", "sync"] }
tokio-util = "0.7"
tonic = { version = "0.12", default-features = false }
tracing = "0.1"
