[package]
name = "rendezvous_relay"
version = "0.1.0"
edition = "2021"
publish = false

[dependencies]
dashmap = "*"
axum = { version = "*", features = ["ws"] }
axum-server = { version = "*", features = ["tls-rustls-no-provider"] }
tokio = { version = "*", features = ["macros", "rt-multi-thread", "net", "sync"] }
tower-http = { version = "*", features = ["compression-gzip"] }
