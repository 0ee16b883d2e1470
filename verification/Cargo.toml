[package]
name = "shepherd"
version = "0.1.0"
edition = "2021"
publish = false

[dependencies]
uuid = { version = "=1.27.0", features = ["v4"] }
serde = { version = "=1.0.229", features = ["derive"] }
serde_json = "=1.0.151"
toml = "=1.1.7"
rusqlite = { version = "=0.40.2", features = ["bundled"] }
chrono = "=0.4.45"
nix = { version = "=0.31.3", features = ["signal", "process", "socket", "fs", "user"] }
clap = { version = "=4.6.7", features = ["derive"] }
