[package]
name = "p2pchat"
version = "0.1.0"
edition = "2021"
publish = false

[dependencies]
anyhow = "*"
crossterm = { version = "*", features = ["event-stream"] }
futures = "*"
libp2p = { version = "=0.53.2", default-features = false, features = ["gossipsub", "noise", "tcp", "tokio", "yamux"] }
log = "*"
serde = { version = "*", features = ["derive"] }
tokio = { version = "*", features = ["macros", "rt-multi-thread"] }
tui = "*"
unicode-width = "*"
