[package]
name = "ferricord"
version = "0.1.0"
edition = "2021"
publish = false

[dependencies]
chrono = "0.4"
dashmap = "6"
lru = "0.12"
flate2 = "1"
percent-encoding = "2"
serde = { version = "1", features = ["derive"] }
serde_json = "1"
serde_repr = "0.1"
url = "2"
thiserror = "1"
tokio = { version = "1", features = ["rt-multi-thread", "macros", "sync", "time", "net", "signal"] }
tokio-tungstenite = "0.24"
futures = "0.3"
reqwest = { version = "0.12", default-features = false, features = ["json"] }
parking_lot = "0.12"
tracing = "0.1"
tracing-subscriber = { version = "0.3", features = ["env-filter"] }
async-trait = "0.1"
pyo3 = "0.23"
pyo3-async-runtimes = { version = "0.23", features = ["tokio-runtime"] }
