[package]
name = "fkactor"
version = "0.1.0"
edition = "2021"
publish = false

[dependencies]
uuid = { version = "1", features = ["v4"] }
futures = "0.3"
futures-util = "0.3"
tokio = { version = "1", features = ["rt", "rt-multi-thread", "sync", "macros"] }
async-trait = "0.1"
serde = { version = "1", features = ["derive"] }
thiserror = "1"
log = "0.4"
