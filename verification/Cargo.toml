[package]
name = "roastcraft"
version = "0.1.0"
edition = "2021"
publish = false

[dependencies]
rmodbus = "*"
serde_json = "1"
serde = { version = "1", features = ["derive"] }
serialport = { version = "4", default-features = false }
tokio = { version = "1", features = ["rt", "rt-multi-thread", "time", "sync"] }
reqwest = { version = "0.11", default-features = false }
toml = "*"
log = "0.4"
