[package]
name = "cargo-embed"
version = "0.8.0"
edition = "2021"
publish = false

[dependencies]
anyhow = "=1.0.104"
cargo-project = "=0.2.7"
chrono = "=0.4.45"
colored = "=2.2.0"
gdb-server = "0.8"
goblin = "0.2"
indicatif = "=0.15.0"
log = "=0.4.35"
probe-rs = "0.8"
probe-rs-rtt = "0.3"
serde = { version = "1", features = ["derive"] }
structopt = "=0.3.26"
toml = "0.5"
