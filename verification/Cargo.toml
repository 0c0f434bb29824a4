[package]
name = "aleph"
version = "0.1.0"
edition = "2021"
publish = false

[dependencies]
ink_env = "3.4.0"
ink_prelude = "3.4.0"
parity-scale-codec = { version = "3", features = ["derive"] }
scale-info = { version = "2", features = ["derive"] }
serde = { version = "1", features = ["derive"] }
thiserror = "1"
anyhow = "1"
log = "0.4"
futures = "0.3"
async-trait = "0.1"
jsonrpsee = { version = "0.16", features = ["server", "macros"] }
