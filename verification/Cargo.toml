[package]
name = "clusteraudiencekit"
version = "0.1.0"
edition = "2021"
publish = false

[dependencies]
serde = { version = "=1.0.229", features = ["derive"] }
ndarray = "0.15"
rand = "0.8"
rayon = "1"
