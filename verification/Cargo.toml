[package]
name = "nesting_engine"
version = "0.1.0"
edition = "2021"
publish = false

[dependencies]
jagua-rs = { version = "=1.0.0", features = ["spp"] }
serde_json = "=1.0.151"
serde = { version = "=1.0.229", features = ["derive"] }
rand = "=0.10.3"
clap = { version = "=4.6.7", features = ["derive"] }
anyhow = "=1.0.104"
log = "=0.4.34"
fern = "=0.7.1"
