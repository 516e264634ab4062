[package]
name = "rss2email"
version = "0.1.0"
edition = "2021"
publish = false

[dependencies]
chrono = "0.4"
dotenvy = "0.15"
enum_dispatch = "0.3"
env_logger = "0.11"
futures = "0.3"
http = "1"
itertools = "0.13"
lazy_static = "1"
log = "0.4"
quick-xml = { version = "0.37", features = ["serialize"] }
regex = "1"
reqwest = { version = "0.12", default-features = false, features = ["blocking", "rustls-tls"] }
resend-rs = "*"
serde = { version = "1", features = ["derive"] }
serde_derive = "1"
tokio = { version = "1", features = ["rt"] }
