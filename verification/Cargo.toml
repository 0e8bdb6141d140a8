[package]
name = "node_census"
version = "0.1.0"
edition = "2021"
publish = false

[dependencies]
csv = "*"
clap = { version = "*", features = ["derive"] }
fern = "*"
log = "*"
tokio = { version = "*", features = ["rt-multi-thread", "macros", "time", "net"] }
bitcoin = "*"
bitcoin-peers-crawler = "*"

[dev-dependencies]
serde_json = "*"
