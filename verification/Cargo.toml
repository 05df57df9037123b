[package]
name = "wat_ir"
version = "0.1.0"
edition = "2021"
publish = false

[dependencies]
wast = "=64.0.0"
serde = { version = "=1.0.229", features = ["derive"] }
serde_json = "=1.0.154"
derive_more = { version = "=2.1.1", features = ["display", "error", "from"] }
specta = "1"
