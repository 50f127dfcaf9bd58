[package]
name = "iota_sponsoring_service"
version = "0.1.0"
edition = "2021"
publish = false

[dependencies]
uuid = { version = "=1.29.0", features = ["v4", "v5"] }
chrono = "=0.4.45"
regex = "=1.13.1"
rand = "=0.9.5"
url = "=2.5.8"
serde = { version = "=1.0.229", features = ["derive"] }
cqrs-es = "=0.4.12"
async-trait = "=0.1.92"
anyhow = "=1.0.104"
thiserror = "=2.0.21"
strum = { version = "=0.28.0", features = ["derive"] }
tokio = { version = "=1.54.1", features = ["full"] }
tokio-stream = { version = "=0.1.19", features = ["sync"] }
futures-util = "=0.3.34"
axum = "=0.8.9"
async-graphql = { version = "=7.2.1", features = ["chrono", "url", "uuid"] }
async-graphql-axum = "=7.2.1"
tower-service = "=0.3.3"
tower-http = { version = "=0.7.1", features = ["cors"] }
bytes = "=1.12.1"
tracing = "=0.1.44"
tracing-subscriber = { version = "=0.3.23", features = ["env-filter", "json"] }
dotenvy = "=0.15.7"
reqwest = { version = "=0.13.5", default-features = false, features = ["json"] }
base64 = "=0.23.1"
bcs = "=0.2.1"
