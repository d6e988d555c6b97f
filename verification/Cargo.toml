[package]
name = "p2p_tun"
version = "0.1.0"
edition = "2021"
publish = false

[dependencies]
libp2p = { version = "0.57", features = ["ed25519", "identify", "ping", "relay", "yamux", "quic", "tokio", "plaintext", "macros"] }
futures = "0.3"
futures-io = "0.3"
tokio = { version = "1", features = ["macros", "rt-multi-thread", "time"] }
clap = { version = "4", features = ["derive"] }
env_logger = { version = "0.10", default-features = false }
log = "0.4"
anyhow = "1"
thiserror = "1"
cfg-if = "1"
async-io = "1"
nix = "0.26"
