[package]
name = "dawn_android"
version = "0.1.0"
edition = "2021"
publish = false

[dependencies]
base64 = "=0.21.7"
hex = "=0.4.3"
jni = "=0.21.1"
serde = { version = "1", features = ["derive"] }
serde_json = "1"
