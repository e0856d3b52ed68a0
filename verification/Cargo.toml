[package]
name = "autopower"
version = "0.1.0"
edition = "2021"
publish = false

[dependencies]
anyhow = "*"
async-ctrlc = "*"
async-trait = "*"
bidirectional-channel = "*"
config = "*"
futures = "*"
hs100api = "*"
reqwest = { version = "*", default-features = false }
serde = { version = "*", features = ["derive"] }
serde_json = "*"
snmp2 = "*"
ssh2 = "*"
tokio = { version = "*", features = ["rt", "macros", "time"] }
tracing = "*"
tracing-subscriber = "*"
