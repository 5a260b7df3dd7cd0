[package]
name = "pocket_coffer"
version = "0.1.0"
edition = "2021"
publish = false

[dependencies]
rusqlite = { version = "0.40", features = ["bundled"] }
sysinfo = { version = "0.39", default-features = false, features = ["system", "disk"] }
serde = { version = "1", features = ["derive"] }
log = "0.4"
env_logger = { version = "0.11", default-features = false }
