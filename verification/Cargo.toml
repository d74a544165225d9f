[package]
name = "filament_ifc"
version = "0.1.0"
edition = "2021"
publish = false

[dependencies]
fake = "=5.1.0"
serde = { version = "=1.0.229", features = ["derive"] }
serde_json = "=1.0.154"
csv = "=1.4.0"
syn = { version = "2", features = ["full"] }
quote = "1"
proc-macro2 = "1"
