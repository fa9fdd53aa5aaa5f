[package]
name = "equilibrium"
version = "0.1.0"
edition = "2021"
publish = false

[dependencies]
chrono = { version = "=0.4.45", features = ["serde"] }
serde = { version = "=1.0.229", features = ["derive"] }
tokio = { version = "=1.53.2", features = ["time"] }
reqwest = { version = "=0.12.28", default-features = false, features = ["json"] }
