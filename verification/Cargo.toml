[package]
name = "rsk_simulation"
version = "0.1.0"
edition = "2021"
publish = false

[dependencies]
rapier2d-f64 = "*"
nalgebra = "*"
serde = { version = "*", features = ["derive"] }
serde_json = "*"
