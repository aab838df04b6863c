[package]
name = "libretunes"
version = "0.1.0"
edition = "2021"
publish = false

[dependencies]
chrono = { version = "=0.4.45", default-features = false, features = ["alloc", "std", "now", "serde"] }
serde = { version = "=1.0.229", features = ["derive"] }
