[package]
name = "mevcat"
version = "0.1.0"
edition = "2021"
publish = false

[dependencies]
serde_json = "*"
alloy-primitives = "*"
alloy-rpc-types-mev = "*"
clap = { version = "*", features = ["derive"] }
reqwest = { version = "*", default-features = false }
tokio = { version = "*", features = ["rt-multi-thread", "macros", "net"] }
axum = "*"
eyre = "*"
log = "*"
pretty_env_logger = "*"
