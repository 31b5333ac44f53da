[package]
name = "sylvia-iot-broker"
version = "0.1.0"
edition = "2021"
publish = false

[dependencies]
sylvia-iot-corelib = "*"
url = "2"
chrono = "0.4"
serde = { version = "1", features = ["derive"] }
serde_json = "1"
axum = "*"
tower = "*"
reqwest = { version = "*", default-features = false, features = ["json"] }
futures = "0.3"
log = "0.4"
