[package]
name = "model_registry_sdk"
version = "0.1.0"
edition = "2021"
publish = false

[dependencies]
async-trait = "=0.1.92"
chrono = { version = "=0.4.45", features = ["serde"] }
gts = "=0.16.2"
gts-macros = "=0.16.2"
schemars = { version = "=1.2.3", features = ["chrono04"] }
serde = { version = "=1.0.229", features = ["derive"] }
serde_json = "=1.0.154"
thiserror = "=2.0.21"
uuid = "=1.29.0"
