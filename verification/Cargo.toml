[package]
name = "oct_classifier"
version = "0.1.0"
edition = "2021"
publish = false

[dependencies]
chrono = { version = "0.4", default-features = false, features = ["std", "now"] }
chrono-tz = "*"
clap = { version = "4", default-features = false, features = ["std", "derive", "help", "usage", "error-context"] }
dunce = "1"
serde = { version = "1", features = ["derive"] }
serde_json = "1"
tensorflow = { version = "*", features = ["eager"] }
