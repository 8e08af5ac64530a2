[package]
name = "rs_audio"
version = "0.1.0"
edition = "2021"
publish = false

[dependencies]
hound = "3.5"
rodio = { version = "0.20", default-features = false, features = ["wav"] }
serde = { version = "1", features = ["derive"] }
serde_json = "1"
