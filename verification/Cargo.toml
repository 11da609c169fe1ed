[package]
name = "work"
version = "0.1.0"
edition = "2021"
publish = false

[dependencies]
chrono = { version = "0.4", features = ["serde"] }
colored = "2"
dirs = "5"
rmp-serde = "1"
serde = { version = "1", features = ["derive"] }
structopt = "0.3"
