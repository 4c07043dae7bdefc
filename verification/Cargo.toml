[package]
name = "hexcore"
version = "0.1.0"
edition = "2021"
publish = false

[dependencies]
tokio = { version = "*", features = ["rt-multi-thread", "sync", "time", "net", "io-util", "macros"] }
tokio-util = "*"
zeromq = "*"
bytes = "*"
futures-lite = "*"
serde = { version = "*", features = ["derive"] }
serde_json = "*"
vorbis_rs = "*"
