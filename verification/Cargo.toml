[package]
name = "ulockmgr"
version = "0.1.0"
edition = "2021"
publish = false

[dependencies]
anyhow = "1"
bincode = "1"
clap = { version = "4", features = ["derive"] }
crossbeam-channel = "0.5"
crossbeam-utils = "0.8"
dashmap = "6"
env_logger = "0.11"
libc = "0.2"
log = "0.4"
nix = { version = "0.30", features = ["fs", "signal", "pthread", "process"] }
parking_lot = { version = "0.12", features = ["arc_lock"] }
rustix = { version = "1", features = ["net", "process", "thread"] }
serde = { version = "1", features = ["derive"] }
