[package]
name = "bimp_persona"
version = "0.1.0"
edition = "2021"
publish = false

[dependencies]
http = "1"
uuid = { version = "1", features = ["v4"] }
http-body-util = "0.1"
hyper = "1"
log = "0.4"
euclid = "0.22"
crossbeam-channel = "0.5"
dpi = "*"
image = { version = "0.25", default-features = false }
ipc-channel = "*"
