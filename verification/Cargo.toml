[package]
name = "api_view"
version = "0.1.0"
edition = "2021"
publish = false

[dependencies]
uuid = { version = "1", features = ["v4", "serde"] }
chrono = { version = "0.4", features = ["serde"] }
base64 = "0.22"
urlencoding = "2"
serde = { version = "1", features = ["derive"] }
serde_json = "1"
sqlformat = "*"
thiserror = "*"
async-trait = "*"
futures = "*"
log = "*"
tracing = "*"
