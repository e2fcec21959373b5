[package]
name = "pendulum_core"
version = "0.1.0"
edition = "2021"
publish = false

[dependencies]
anyhow = "=1.0.104"
notan = { version = "=0.14.0", default-features = false, features = ["backend"] }
