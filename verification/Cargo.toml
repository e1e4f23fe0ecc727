[package]
name = "chat"
version = "0.1.0"
edition = "2021"
publish = false

[dependencies]
bincode = "=1.3.3"
serde = { version = "=1.0.229", features = ["derive"] }
sled = "=0.34.7"
message-io = "=0.10.2"
crossterm = "=0.25.0"
tui = { version = "=0.19.0", default-features = false, features = ["crossterm"] }
