[package]
name = "unitrade"
version = "0.1.0"
edition = "2021"
publish = false

[dependencies]
rust_decimal = "=1.43.0"
serde = { version = "=1.0.229", features = ["derive"] }
thiserror = "=2.0.21"
tokio = { version = "=1.54.1", default-features = false, features = ["sync", "rt", "time"] }
async-trait = "=0.1.92"
anyhow = "=1.0.104"
