[package]
name = "port_sync"
version = "0.1.0"
edition = "2021"
publish = false

[dependencies]
anyhow = "=1.0.104"
reqwest = { version = "=0.12.28", features = ["blocking", "cookies"] }
serde_json = { version = "=1.0.154", features = ["arbitrary_precision", "preserve_order"] }
thiserror = "=1.0.69"
tracing = "=0.1.44"
tracing-subscriber = "=0.3.23"
