[package]
name = "acuity_index"
version = "0.1.0"
edition = "2021"
publish = false

[dependencies]
bincode = "=1.3.3"
hex = "=0.4.3"
parity-scale-codec = { version = "=2.3.1", features = ["derive"] }
rocksdb = { version = "0.22", default-features = false }
serde = { version = "1", features = ["derive"] }
serde_json = "1"
sp-core = "=3.0.0"
sp-io = "=3.0.0"
substrate-bip39 = "=0.4.4"
tokio = { version = "1", features = ["macros", "net", "rt-multi-thread", "sync"] }
tokio-tungstenite = { version = "=0.14.0", default-features = false }
web3 = { version = "=0.16.0", default-features = false, features = ["ws-tokio"] }
