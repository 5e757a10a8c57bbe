[package]
name = "spark"
version = "0.1.0"
edition = "2021"
publish = false

[dependencies]
bytes = "1"
futures-util = "0.3"
opentelemetry = "0.22"
opentelemetry_sdk = { version = "0.22", features = ["trace"] }
proc-macro2 = "1"
quote = "1"
socket2 = "0.5"
spin = "0.9"
syn = { version = "2", features = ["full"] }
tokio = { version = "1", features = ["io-util", "macros", "net", "rt", "sync", "time"] }
tracing = "0.1"
tracing-opentelemetry = "0.23"
tracing-subscriber = { version = "0.3", features = ["env-filter", "fmt"] }
