[package]
name = "elastic"
version = "0.1.0"
edition = "2021"
publish = false

[dependencies]
serde_json = "1"
http = "1"
reqwest = { version = "0.12", default-features = false, features = ["blocking"] }
futures = { version = "0.3", features = ["compat"] }
futures-cpupool = "0.1"
