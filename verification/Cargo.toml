[package]
name = "whip_signaller"
version = "0.1.0"
edition = "2021"
publish = false

[dependencies]
futures = "0.3"
url = "2"
async-std = "1"
surf = { version = "2", default-features = false, features = ["h1-client-rustls"] }
