[package]
name = "sidecar_supervisor"
version = "0.1.0"
edition = "2021"
publish = false

[dependencies]
log = "0.4"
portpicker = "0.1"
reqwest = { version = "0.12", default-features = false }
tauri = { version = "2", default-features = false }
tokio = { version = "1", default-features = false, features = ["time"] }
