[package]
name = "streamcore"
version = "0.1.0"
edition = "2021"
publish = false

[dependencies]
serde_json = "1"
sha2 = "0.10"
rustls-pemfile = "2"
rcgen = "0.13"
time = "0.3"
