[package]
name = "minion_report"
version = "0.1.0"
edition = "2021"
publish = false

[dependencies]
regex = "1"
serde_json = "1"
serde = { version = "1", features = ["derive"] }
clap = "2"
error-chain = "0.12"
log = "0.4"
loggerv = "0.7"
