[package]
name = "logtint"
version = "0.1.0"
edition = "2021"
publish = false

[dependencies]
serde_json = { version = "=1.0.151", features = ["float_roundtrip"] }
chrono = "=0.4.45"
owo-colors = "=4.4.0"
