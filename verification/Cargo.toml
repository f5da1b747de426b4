[package]
name = "home_core"
version = "0.1.0"
edition = "2021"
publish = false

[dependencies]
heapless = { version = "=0.8.0", features = ["serde"] }
hex = "=0.4.3"
sha2 = "=0.10.9"
hmac = "=0.12.1"
jwt = "=0.16.0"
itoa = "=1.0.18"
urandom = "=0.2.2"
chrono = "=0.4.45"
serde = { version = "=1.0.229", features = ["derive"] }
serde_json = "=1.0.154"
serde-json-core = "=0.7.0"
reqwest = { version = "=0.12.28", default-features = false, features = ["json"] }
tokio = { version = "=1.54.1", features = ["full"] }
anyhow = "=1.0.104"
pnet = "=0.35.0"
tracing = "=0.1.44"
log = "=0.4.34"
embedded-io = "=0.6.1"
embedded-storage = "=0.3.2"
critical-section = "=1.2.0"
axum = { version = "=0.7.9", features = ["ws"] }
deadpool = "=0.13.1"
deadpool-r2d2 = "=0.4.2"
r2d2_sqlite = "=0.35.0"
openssl = "0.10"
axum-server = { version = "0.7", features = ["tls-rustls"] }
tower-http = { version = "=0.6.11", features = ["fs", "trace"] }
tracing-subscriber = "0.3"
tower-livereload = "*"
