[package]
name = "auto_scribe"
version = "0.1.0"
edition = "2021"
publish = false

[dependencies]
rubato = "=5.0.1"
audioadapter-buffers = "=5.2.0"
tokio = { version = "=1.53.2", features = ["rt-multi-thread", "sync", "time", "macros"] }
serde = { version = "=1.0.229", features = ["derive"] }
toml = "=0.8.23"
directories = "=6.0.0"
uuid = { version = "=1.27.0", features = ["v4"] }
thiserror = "=2.0.21"
