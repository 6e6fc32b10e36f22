[package]
name = "p2p_chat"
version = "0.1.0"
edition = "2021"
publish = false

[dependencies]
argon2 = "=0.6.0"
async-trait = "=0.1.92"
axum = { version = "=0.8.9", features = ["ws"] }
bytes = "=1.12.1"
chrono = { version = "=0.4.45", features = ["serde"] }
dashmap = "=6.2.1"
dotenvy = "=0.15.7"
futures = "=0.3.34"
futures-util = "=0.3.34"
hex = "=0.4.3"
jsonwebtoken = { version = "=11.1.0", features = ["rust_crypto"] }
keyring = "=4.2.0"
names = { version = "=0.14.0", default-features = false }
parking_lot = "=0.13.0"
rand = "=0.10.3"
serde = { version = "=1.0.229", features = ["derive"] }
serde_json = "=1.0.154"
sha2 = "=0.11.1"
sqlx = { version = "=0.9.0", features = ["postgres", "runtime-tokio", "chrono", "uuid"] }
thiserror = "=2.0.21"
tokio = { version = "=1.54.1", features = ["full"] }
tokio-tungstenite = "=0.30.0"
tower-http = { version = "=0.7.1", features = ["cors", "trace"] }
tracing = "=0.1.44"
tracing-subscriber = { version = "=0.3.23", features = ["env-filter"] }
urlencoding = "=2.1.3"
uuid = { version = "=1.29.1", features = ["v4", "serde"] }
