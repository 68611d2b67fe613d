[package]
name = "palette"
version = "0.7.6"
edition = "2021"
publish = false

[dependencies]
approx = "0.5"
num-traits = "0.2"
rand = "0.8"
serde = { version = "1", features = ["derive"] }
serde_json = "1"
bytemuck = "1"
