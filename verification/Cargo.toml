[package]
name = "prosody"
version = "0.1.0"
edition = "2021"
publish = false

[dependencies]
atomic-take = "1"
bumpalo = { version = "3", features = ["collections"] }
educe = "*"
futures = "0.3"
kanal = "*"
magnus = "*"
mimalloc = "*"
opentelemetry = "*"
rb-sys = "*"
serde = { version = "1", features = ["derive"] }
serde_json = "1"
serde_magnus = "*"
serde-untagged = "*"
thiserror = "*"
tokio = { version = "1", features = ["sync", "rt-multi-thread", "macros"] }
tokio-stream = "*"
tracing = "0.1"
tracing-opentelemetry = "*"
tracing-subscriber = "0.3"
