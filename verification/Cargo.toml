[package]
name = "stem_sync"
version = "0.1.0"
edition = "2021"
publish = false

[dependencies]
tokio-util = { version = "0.7", features = ["codec"] }
twox-hash = "1"
path-clean = "1"
tokio = { version = "1", features = ["rt-multi-thread", "net", "sync", "macros"] }
futures = "0.3"
notify = "6"
serde = { version = "1", features = ["derive"] }
serde_with = "3"
ciborium = "0.2"
clap = { version = "4", features = ["derive"] }
