[package]
name = "flowstt"
version = "0.1.0"
edition = "2021"
publish = false

[dependencies]
chrono = "=0.4.45"
serde = { version = "=1.0.229", features = ["derive"] }
serde_json = "=1.0.154"
directories = "=5.0.1"
zip = { version = "=2.6.1", default-features = false, features = ["deflate", "time"] }
rustfft = "6"
rubato = "0.16"
