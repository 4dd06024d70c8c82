[package]
name = "arp_foo_bar"
version = "0.1.0"
edition = "2021"
publish = false

[dependencies]
hyper = "=1.12.0"
once_cell = "=1.21.4"
serde_json = { version = "=1.0.154", features = ["preserve_order"] }
url = "=2.5.8"
