[package]
name = "aleph_network"
version = "0.1.0"
edition = "2021"
publish = false

[dependencies]
libp2p-identity = { version = "*", features = ["peerid"] }
multiaddr = "*"
futures = "*"
tokio = { version = "*", features = ["macros"] }
async-trait = "*"
log = "*"
anyhow = "*"
