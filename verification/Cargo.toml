[package]
name = "tj2"
version = "0.1.0"
edition = "2021"
publish = false

[dependencies]
axum = { version = "=0.7.9", default-features = false }
chrono = "=0.4.45"
mime = "=0.3.17"
url = "=2.5.8"
urlencoding = "=2.1.3"
tokio-postgres = "=0.7.18"
nanoid = "=0.4.0"
num_cpus = "=1.17.0"
clap = { version = "=4.6.7", features = ["derive"] }
serde = { version = "=1.0.229", features = ["derive"] }
serde_json = "=1.0.154"
serde_yml = "=0.0.13"
toml = "=0.8.23"
tracing = "=0.1.44"
rand = "=0.8.8"
tera = { version = "=1.20.1", default-features = false }
tracing-subscriber = { version = "=0.3.23", features = ["env-filter", "json"] }
tracing-appender = "=0.2.5"
bincode = { version = "2", default-features = false, features = ["std"] }
