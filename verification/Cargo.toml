[package]
name = "photon_transport"
version = "0.1.0"
edition = "2021"
publish = false

[dependencies]
nalgebra = "0.32"
rand = "0.8"
serde = { version = "1", features = ["derive"] }
