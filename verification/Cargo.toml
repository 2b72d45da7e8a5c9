[package]
name = "aigw_console"
version = "0.1.0"
edition = "2021"
publish = false

[dependencies]
base64 = "0.22"
md5 = "0.7"
hex = "0.4"
sha = "1"
serde = { version = "1", features = ["derive"] }
serde_json = "1"
clap = { version = "4", features = ["derive"] }
tokio = { version = "1", features = ["full"] }
anyhow = "1"
time = { version = "0.3", features = ["macros", "formatting", "parsing"] }
chrono = "0.4"
regex = "1"
toml = "0.8"
dashmap = "6"
bytes = "1"
tracing = "0.1"
lazy_static = "1"
log = "0.4"
rcgen = "0.13"
ring = "0.17"
http = "1"
sqlx = { version = "0.8", default-features = false, features = ["mysql", "runtime-tokio", "time", "macros"] }
axum = "0.8"
tower-http = { version = "0.6", features = ["fs", "trace"] }
reqwest = { version = "0.12", default-features = false, features = ["json", "rustls-tls"] }
