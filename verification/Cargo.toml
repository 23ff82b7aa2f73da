[package]
name = "pg_sessions"
version = "0.1.0"
edition = "2021"
publish = false

[dependencies]
chrono = { version = "=0.4.45", default-features = false, features = ["std", "clock"] }
serde = { version = "=1.0.229", features = ["derive"] }
serde_with = { version = "=3.24.0", features = ["chrono_0_4"] }
schemars = "=0.9.0"
tokio = { version = "=1.54.1", features = ["time", "rt", "macros"] }
tracing = "=0.1.44"
async-trait = "=0.1.92"
