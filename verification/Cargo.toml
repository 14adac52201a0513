[package]
name = "edgelet_http_mgmt"
version = "0.1.0"
edition = "2021"
publish = false

[dependencies]
hyper = { version = "0.14", default-features = false, features = ["server", "http1"] }
