[package]
name = "mmo_viewer"
version = "0.1.0"
edition = "2021"
publish = false

[dependencies]
config = { version = "0.14", default-features = false, features = ["toml"] }
crossbeam-channel = "0.5"
macroquad = "0.4"
serde = { version = "1", features = ["derive"] }
tokio = { version = "1", features = ["rt", "time"] }
tonic = "0.12"
tracing = "0.1"
tracing-subscriber = { version = "0.3", features = ["env-filter"] }
