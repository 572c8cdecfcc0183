[package]
name = "reth_provider_ext"
version = "0.1.0"
edition = "2021"
publish = false

[dependencies]
alloy-json-rpc = "*"
alloy-network = "*"
alloy-primitives = "*"
alloy-pubsub = "*"
alloy-rpc-client = { version = "*", features = ["pubsub"] }
alloy-rpc-types-eth = "*"
alloy-transport = "*"
async-trait = "*"
serde = "*"
serde_json = "*"

[dev-dependencies]
futures = "*"
tokio = { version = "*", features = ["rt", "sync", "time"] }
tower = "*"
