[package]
name = "iscp"
version = "0.1.0"
edition = "2021"
publish = false

[dependencies]
uuid = "1"
bytes = "1"
chrono = "0.4"
prost = "0.13"
serde = { version = "1", features = ["derive"] }
serde_json = "1"
tokio = { version = "1", features = ["rt-multi-thread", "macros", "sync", "time"] }
tokio-util = "0.7"
log = "0.4"
rand = "0.8"
thiserror = "1"
crossbeam = "0.8"
fnv = "1"
