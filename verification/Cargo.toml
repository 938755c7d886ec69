[package]
name = "collection_bot"
version = "0.1.0"
edition = "2021"
publish = false

[dependencies]
anyhow = "1"
egg-mode = "0.16"
futures = "0.3"
log = "0.4"
mime = "0.3"
mime-sniffer = "0.1"
redis = "0.27"
reqwest = { version = "0.11", features = ["json", "multipart"] }
rusqlite = { version = "0.40", features = ["bundled"] }
serde_json = "1"
time = "0.3"
tokio = { version = "1", features = ["rt-multi-thread", "macros", "time", "fs"] }
twitter-v2 = "0.1"
