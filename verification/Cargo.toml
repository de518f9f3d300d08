[package]
name = "hint_host"
version = "0.1.0"
edition = "2021"
publish = false

[dependencies]
alloy-primitives = { version = "=1.7.3", default-features = false, features = ["std", "serde", "rlp"] }
alloy-consensus = { version = "=1.8.3", default-features = false, features = ["std"] }
alloy-eips = { version = "=1.8.3", default-features = false, features = ["std"] }
alloy-rlp = { version = "=0.3.17", default-features = false, features = ["std"] }
alloy-provider = { version = "=1.8.3", default-features = false }
alloy-rpc-types = { version = "=1.8.3", default-features = false, features = ["eth", "debug"] }
alloy-transport = { version = "=1.8.3", default-features = false }
op-alloy-rpc-types-engine = { version = "=0.23.1", default-features = false, features = ["std", "serde"] }
ark-ff = { version = "=0.5.0", default-features = false }
serde_json = "=1.0.154"
anyhow = "=1.0.104"
async-trait = "=0.1.92"
tracing = "=0.1.44"
spin = "=0.10.1"
tokio = { version = "=1.54.1", features = ["sync"] }
clap = { version = "=4.6.7", default-features = false, features = ["std", "derive", "env", "help"] }
