[package]
name = "hive_send"
version = "0.1.0"
edition = "2021"
publish = false

[dependencies]
dashmap = "6"
uuid = { version = "1", features = ["v4"] }
rand = "0.9"
sha2 = "0.10"
mime_guess = "2"
glob = "0.3"
rcgen = "0.11"
serde = { version = "1", features = ["derive"] }
serde_json = "1"
thiserror = "2"
log = "0.4"
async-trait = "0.1"
tokio = { version = "1", features = ["full"] }
tokio-util = { version = "0.7", features = ["io"] }
axum = "0.8"
axum-extra = { version = "0.10", features = ["typed-header"] }
axum-server = { version = "0.7", features = ["tls-rustls"] }
tower-http = { version = "0.6", features = ["trace"] }
reqwest = { version = "0.12", default-features = false, features = ["json", "rustls-tls"] }
walkdir = "2"
