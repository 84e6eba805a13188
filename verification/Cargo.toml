[package]
name = "nexus_pls"
version = "0.1.0"
edition = "2021"
publish = false

[dependencies]
chrono = { version = "=0.4.45", default-features = false, features = ["std"] }
hyper = { version = "=0.14.32", features = ["full"] }
hyper-rustls = "=0.23.2"
lazy_static = "=1.5.1"
redis = { version = "=0.22.4", features = ["tokio-comp"] }
serde = { version = "=1.0.229", features = ["derive"] }
serde_json = "=1.0.154"
# Not used directly. teloxide-core depends on it, and this holds it at the
# last release that builds with the compiler in use.
takecell = "=0.1.1"
teloxide = { version = "=0.10.1", default-features = false, features = ["rustls", "ctrlc_handler", "auto-send", "macros"] }
tokio = { version = "=1.54.1", features = ["full"] }
toml = "=0.5.11"
tracing = "=0.1.44"
tracing-subscriber = "=0.3.23"
