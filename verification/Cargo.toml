[package]
name = "ws"
version = "0.1.0"
edition = "2021"
publish = false

[dependencies]
mio = "=0.6.23"
openssl = "=0.10.81"

[dev-dependencies]
net2 = "=0.2.39"
