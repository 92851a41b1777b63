[package]
name = "gb"
version = "0.1.0"
edition = "2021"
publish = false

[dependencies]
chrono = { version = "0.4", default-features = false, features = ["clock", "std"] }
clap = "2"
image = { version = "0.24", default-features = false, features = ["png"] }
