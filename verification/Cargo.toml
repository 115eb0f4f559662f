[package]
name = "catallaxyz"
version = "0.1.0"
edition = "2021"
publish = false

[dependencies]
blake3 = "=1.8.7"
anchor-lang = { version = "=0.32.2", features = ["init-if-needed"] }
anchor-spl = "=0.32.2"
