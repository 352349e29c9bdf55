[package]
name = "bridge-api"
version = "0.1.0"
edition = "2021"
publish = false

[dependencies]
alloy-primitives = { version = "0.6", features = ["serde"] }
axum = { version = "0.7", default-features = false, features = ["http1", "json", "query", "tokio"] }
chrono = { version = "0.4", default-features = false, features = ["now"] }
dotenvy = "0.15"
impl-serde = "*"
jsonrpsee = { version = "0.20", features = ["http-client"] }
reqwest = { version = "0.11", default-features = false, features = ["json", "brotli", "rustls-tls"] }
serde = { version = "1", features = ["derive"] }
serde_json = "1"
sha3 = "0.10"
sp-crypto-hashing = "*"
tikv-jemallocator = "0.5"
tokio = { version = "1", features = ["macros", "rt-multi-thread", "net"] }
tower-http = { version = "0.5", features = ["compression-br", "trace"] }
tracing = "0.1"
tracing-subscriber = { version = "0.3", default-features = false, features = ["env-filter", "fmt", "ansi"] }

[dev-dependencies]
parity-scale-codec = { version = "3", default-features = false, features = ["std"] }
