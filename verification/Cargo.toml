[package]
name = "kenseader"
version = "0.1.0"
edition = "2021"
publish = false

[dependencies]
url = "=2.5.8"
uuid = { version = "=1.29.0", features = ["v4"] }
dirs = "=7.0.0"
feed-rs = "=2.4.0"
html2text = "=0.17.4"
quick-xml = "=0.42.0"
serde_json = "=1.0.154"
chrono = "=0.4.45"
serde = { version = "=1.0.229", features = ["derive"] }
toml = "=1.1.8"
tokio = { version = "=1.54.1", features = ["full"] }
reqwest = { version = "=0.12.28", default-features = false, features = ["json", "gzip", "deflate", "brotli", "rustls-tls"] }
sqlx = { version = "=0.8.6", default-features = false, features = ["sqlite", "runtime-tokio", "chrono", "macros"] }
clap = { version = "=4.6.7", features = ["derive"] }
thiserror = "=2.0.21"
tracing = "=0.1.44"
tracing-subscriber = { version = "=0.3.23", features = ["env-filter"] }
async-trait = "=0.1.92"
bytes = "=1.12.1"
async-openai = { version = "=0.43.0", features = ["chat-completion"] }
