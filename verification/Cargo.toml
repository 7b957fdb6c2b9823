[package]
name = "lethe_server"
version = "0.1.0"
edition = "2021"
publish = false

[dependencies]
sha2 = "=0.10.9"
ed25519-dalek = "=2.2.0"
curve25519-dalek = { version = "=4.1.3", features = ["digest"] }
base64 = "=0.22.1"
time = { version = "=0.3.55", features = ["macros", "formatting", "parsing"] }
rustrict = "=0.7.39"
rand = "=0.8.8"
sqlx = { version = "=0.8.6", default-features = false, features = ["postgres", "runtime-tokio", "time", "macros", "migrate"] }
axum = "=0.7.9"
tokio = { version = "=1.54.1", features = ["full"] }
reqwest = { version = "=0.12.28", default-features = false, features = ["json", "rustls-tls"] }
serde = { version = "=1.0.229", features = ["derive"] }
serde_json = "=1.0.154"
clap = { version = "=4.6.7", features = ["derive", "env"] }
askama = "=0.12.1"
askama_axum = "=0.4.0"
tower = { version = "=0.4.13", features = ["limit"] }
tower-http = { version = "=0.5.2", features = ["limit", "set-header", "fs"] }
tracing = "=0.1.44"
tracing-subscriber = { version = "=0.3.23", features = ["env-filter"] }
thiserror = "=1.0.69"
dotenvy = "=0.15.7"
