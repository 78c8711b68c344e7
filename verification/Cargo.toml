[package]
name = "isupipe"
version = "0.1.0"
edition = "2021"
publish = false

[dependencies]
async-session = "=3.0.0"
axum = "=0.6.20"
axum-extra = { version = "=0.8.0", features = ["cookie-signed", "cookie-key-expansion"] }
base64 = "=0.21.7"
bcrypt = "=0.15.1"
chrono = "=0.4.45"
listenfd = "=1.0.2"
moka = { version = "=0.12.16", features = ["future", "sync"] }
num-traits = "=0.2.19"
serde = { version = "=1.0.229", features = ["derive"] }
sha2 = "=0.10.9"
sqlx = { version = "=0.7.4", default-features = false, features = ["macros", "runtime-tokio", "mysql", "rust_decimal"] }
thiserror = "=1.0.69"
time = "=0.3.55"
tokio = { version = "=1.54.1", features = ["macros", "rt-multi-thread", "net", "process"] }
tower-http = { version = "=0.4.4", features = ["trace"] }
tracing = "=0.1.44"
tracing-subscriber = "=0.3.23"
uuid = { version = "=1.29.0", features = ["v4"] }
