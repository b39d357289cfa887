[package]
name = "ttrim"
version = "0.1.0"
edition = "2021"
publish = false

[dependencies]
chrono = "0.4"
clap = { version = "4", features = ["derive"] }
thiserror = "1"

[dev-dependencies]
regex = "1"
