[package]
name = "palworld_save"
version = "0.1.0"
edition = "2021"
publish = false

[dependencies]
byteorder = "1"
flate2 = "1"
serde = { version = "1", features = ["derive"] }
serde_json = "1"
uesave = "0.3.0"
