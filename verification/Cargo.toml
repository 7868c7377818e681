[package]
name = "flight_rs"
version = "0.1.0"
edition = "2021"
publish = false

[dependencies]
arrow = "*"
arrow-flight = "*"
futures = "*"
tokio = { version = "*", features = ["macros", "rt-multi-thread"] }
tonic = "*"
