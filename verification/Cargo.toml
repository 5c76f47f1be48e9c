[package]
name = "propane_sqlgen"
version = "0.1.0"
edition = "2021"
publish = false

[dependencies]
hex = "0.4"
chrono = { version = "0.4", default-features = false, features = ["std"] }
