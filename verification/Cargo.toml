[package]
name = "hyperspace_core"
version = "0.1.0"
edition = "2021"
publish = false

[dependencies]
sp-core = "*"
serde = { version = "1", features = ["derive"] }
thiserror = "1"
anyhow = "1"
async-trait = "0.1"
futures = "0.3"
derive_more = { version = "*", features = ["from"] }
