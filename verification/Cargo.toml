[package]
name = "linkdoku"
version = "0.1.0"
edition = "2021"
publish = false

[dependencies]
md5 = "=0.7.0"
base64 = "=0.13.1"
xz2 = "=0.1.7"
lz-str = "=0.2.1"
url = { version = "=2.5.8", features = ["serde"] }
serde = { version = "=1.0.229", features = ["derive"] }
serde_json = "=1.0.154"
axum = "=0.5.17"
tokio = { version = "=1.54.1", features = ["full"] }
tower-cookies = { version = "=0.7.0", features = ["private"] }
cookie = "=0.16.2"
tower-http = { version = "=0.3.5", features = ["fs", "trace"] }
tracing = "=0.1.44"
tracing-subscriber = "=0.3.23"
openidconnect = "=2.5.1"
redis = { version = "=0.22.4", features = ["aio", "tokio-comp", "connection-manager"] }
config = { version = "=0.13.4", default-features = false, features = ["yaml"] }
