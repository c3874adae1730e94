[package]
name = "async_flow"
version = "0.1.0"
edition = "2021"
publish = false

[dependencies]
tokio = { version = "=1.54.1", features = ["sync", "rt", "rt-multi-thread", "macros", "io-std", "io-util", "time"] }
dogma = "=0.2.2"
valuand = "=0.0.5"
thiserror = "=2.0.21"
async-trait = "=0.1.92"
serde = { version = "=1.0.229", features = ["derive"] }
