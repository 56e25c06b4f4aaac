[package]
name = "time_requirements"
version = "0.1.0"
edition = "2021"
publish = false

[dependencies]
chrono = { version = "0.4", features = ["serde"] }
chrono-humanize = "0.2"
serde = { version = "1", features = ["derive"] }
serde_json = "1"
tabled = "*"
