[package]
name = "govee_hass"
version = "0.1.0"
edition = "2021"
publish = false

[dependencies]
anyhow = "1"
async-trait = "0.1"
log = "0.4"
mosquitto-rs = { version = "*", features = ["router", "vendored-mosquitto"] }
serde = { version = "1", features = ["derive"] }
serde_json = "1"
