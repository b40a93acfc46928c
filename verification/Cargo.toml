[package]
name = "http_serve"
version = "0.1.0"
edition = "2021"
publish = false

[dependencies]
axum = "0.7"
futures-util = "0.3"
hyper = { version = "1", features = ["http1", "http2", "server"] }
hyper-util = { version = "0.1", features = ["tokio", "server-auto", "service", "http1", "http2"] }
tokio = { version = "1", features = ["net", "sync", "time", "macros", "rt"] }
tower = { version = "0.5", features = ["util"] }
tracing = "0.1"
