[package]
name = "fadb_desktop"
version = "0.1.0"
edition = "2021"
publish = false

[dependencies]
semver = "1"
vt100 = "0.16"
image = { version = "0.25", default-features = false, features = ["png"] }
uuid = { version = "1", features = ["v4"] }
serde = { version = "1", features = ["derive"] }
serde_json = "1"
eframe = { version = "0.33", default-features = false, features = ["default_fonts", "glow", "x11"] }
arboard = "3"
tokio = { version = "1", features = ["rt-multi-thread", "sync", "time", "macros"] }
tracing = "0.1"
tracing-subscriber = { version = "0.3", features = ["env-filter"] }
