[package]
name = "p2p_protos"
version = "0.1.0"
edition = "2021"
publish = false

[dependencies]
libp2p = { version = "=0.56.0", features = ["kad", "identify", "mdns", "noise", "yamux", "tcp", "tokio", "macros", "ed25519"] }
tokio = { version = "=1.54.1", features = ["rt-multi-thread", "macros", "sync", "time"] }
tokio-util = "=0.7.20"
futures = "=0.3.34"
ratatui = "=0.29.0"
crossterm = { version = "=0.28.1", features = ["event-stream"] }
indexmap = "=2.14.2"
parking_lot = "=0.12.5"
rand = "=0.8.8"
clap = { version = "=4.6.7", features = ["derive"] }
color-eyre = { version = "=0.6.5", default-features = false }
thiserror = "=2.0.21"
tracing = "=0.1.44"
tracing-subscriber = { version = "=0.3.23", features = ["env-filter"] }
