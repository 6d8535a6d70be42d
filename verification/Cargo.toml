[package]
name = "http_session"
version = "0.1.0"
edition = "2021"
publish = false

[dependencies]
mio = "=0.6.23"
nom = { version = "4", default-features = false, features = ["std"] }
time = "=0.1.45"
uuid = { version = "=0.6.5", features = ["v4"] }
