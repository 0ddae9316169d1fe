[package]
name = "aenv_api"
version = "0.1.0"
edition = "2021"
publish = false

[dependencies]
anyhow = "=1.0.104"
async-trait = "=0.1.92"
chrono = "=0.4.45"
metrics = "=0.24.6"
rand = "=0.10.3"
serde = { version = "=1.0.229", features = ["derive"] }
serde_json = "=1.0.154"
sqlx = { version = "=0.8.6", default-features = false, features = ["postgres", "runtime-tokio", "uuid", "chrono", "json", "derive"] }
thiserror = "=2.0.21"
tokio = { version = "=1.54.1", features = ["rt", "time", "sync", "macros"] }
tonic = { version = "=0.14.9", default-features = false }
tracing = "=0.1.44"
url = "=2.5.8"
uuid = { version = "=1.29.0", features = ["v4"] }
