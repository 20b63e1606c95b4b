[package]
name = "pomfrit"
version = "0.1.0"
edition = "2021"
publish = false

[dependencies]
anyhow = "1"
futures = "0.3"
hyper = { version = "0.14", features = ["server", "tcp", "http1"] }
log = "0.4"
num-traits = "0.2"
parking_lot = "0.12"
serde = { version = "1", features = ["derive"] }
tokio = { version = "1", features = ["sync", "time", "rt", "macros"] }

[dev-dependencies]
futures-test = "0.3"
