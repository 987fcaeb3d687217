[package]
name = "crabontree"
version = "0.1.0"
edition = "2021"
publish = false

[dependencies]
anyhow = "1"
chrono = { version = "0.4.45", default-features = false, features = ["clock"] }
directories = "6"
eframe = { version = "0.29", default-features = false, features = ["default_fonts", "glow", "x11"] }
egui_dock = { version = "0.14", features = ["serde"] }
git2 = { version = "0.20", default-features = false }
serde = { version = "1", features = ["derive"] }
serde_json = "1"
thiserror = "2"
tokio = { version = "1.54", features = ["rt", "sync"] }
toml = "0.8"
tracing = "0.1"
tracing-subscriber = { version = "0.3", default-features = false, features = ["fmt", "std"] }
whoami = "1.6"
