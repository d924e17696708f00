[package]
name = "wikirandom"
version = "0.1.0"
edition = "2021"
publish = false

[dependencies]
serde_json = "1"
rand = "0.8"
hyper = "0.14"
hyper-alpn = "0.4"
http = "0.2"
log = "0.4"
