[package]
name = "http_client"
version = "0.1.0"
edition = "2021"
publish = false

[dependencies]
isahc = { version = "=1.8.3", default-features = false }
async-std = "=1.13.2"
async-h1 = "=2.3.4"
http-types = "=2.12.0"
futures = "=0.3.34"
async-tls = "=0.11.0"
rustls = "=0.19.1"
hyper = "0.13"
