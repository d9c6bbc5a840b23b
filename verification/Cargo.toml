[package]
name = "facilitator"
version = "0.1.0"
edition = "2021"
publish = false

[dependencies]
base64 = "=0.21.7"
prio = { version = "=0.10.3", features = ["prio2"] }
ring = "=0.16.20"
uuid = { version = "1", features = ["v4"] }
