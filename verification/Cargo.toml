[package]
name = "infallible_sonyflake"
version = "0.1.0"
edition = "2021"
publish = false

[dependencies]
chrono = "0.4"
parking_lot = "0.12"
pnet = "*"
serde = { version = "1", features = ["derive"] }
