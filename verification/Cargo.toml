[package]
name = "forget"
version = "0.1.0"
edition = "2021"
publish = false

[dependencies]
bitflags = "1"
chrono = "0.4"
dirs = "2"
failure = "0.1"
serde = { version = "1", features = ["derive"] }
serde_json = "1"
termion = "1.5"
tui = "0.8"
unicode-width = "0.1"
