[package]
name = "dbmod"
version = "0.1.0"
edition = "2021"
publish = false

[dependencies]
serde_json = "=1.0.154"
postgres = "=0.19.14"
eframe = { version = "0.23", default-features = false, features = ["glow", "x11"] }
