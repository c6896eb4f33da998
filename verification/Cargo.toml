[package]
name = "ispawn"
version = "0.1.0"
edition = "2021"
publish = false

[dependencies]
futures-task = "0.3"
futures-executor = "0.3"
async-executor = "1"
tokio = { version = "1", default-features = false, features = ["rt"] }
dioxus = { version = "*", default-features = false }

[dev-dependencies]
localq = "*"
pollster = "*"
