[package]
name = "standout"
version = "0.1.0"
edition = "2021"
publish = false

[dependencies]
clap = { version = "=4.6.7", features = ["string"] }
deunicode = "=1.6.2"
serde = { version = "=1.0.229", features = ["derive"] }
serde_json = "=1.0.154"
