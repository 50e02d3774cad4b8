[package]
name = "grpc_demo_core"
version = "0.1.0"
edition = "2021"
publish = false

[dependencies]
axum = "0.7"
clap = { version = "4", features = ["derive"] }
pprof = { version = "0.13", features = ["flamegraph", "prost-codec"] }
sysinfo = "0.30"
tokio = { version = "1", features = ["full"] }
tokio-stream = "0.1"
tonic = "0.12"
tower = "0.4"
tower-http = { version = "0.5", features = ["timeout"] }
tracing = "0.1"
tracing-subscriber = { version = "0.3", features = ["env-filter"] }
