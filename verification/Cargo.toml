[package]
name = "upscaler"
version = "0.1.0"
edition = "2021"
publish = false

[dependencies]
image = "=0.25.10"
ndarray = "=0.17.2"
num_cpus = "=1.17.0"
ort = { version = "=2.0.0-rc.13", features = ["load-dynamic", "ndarray"] }
rayon = "=1.12.0"
reqwest = { version = "=0.12.28", default-features = false, features = ["blocking", "rustls-tls"] }
