[package]
name = "ws_bridge"
version = "0.1.0"
edition = "2021"
publish = false

[dependencies]
chrono = "0.4"
zmq = { version = "0.9", features = ["vendored"] }
openssl = "0.10"
actix = "0.13"
actix-web = { version = "4", features = ["openssl"] }
actix-web-actors = "4"
