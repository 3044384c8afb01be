[package]
name = "omnitensor_node"
version = "0.1.0"
edition = "2021"
publish = false

[dependencies]
anyhow = "1"
async-trait = "0.1"
clap = "2"
log = "0.4"
serde = { version = "1", features = ["derive"] }
serde_json = "1"
tch = "0.13"
thiserror = "1"
tokio = { version = "1", features = ["macros", "rt-multi-thread", "sync", "time", "fs"] }
tracing = "0.1"
tracing-subscriber = "0.3"
