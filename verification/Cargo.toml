[package]
name = "multiplex"
version = "0.1.0"
edition = "2021"
publish = false

[dependencies]
http = "0.2"
axum = "0.5"
axum-server = "0.4"
hyper = { version = "0.14", features = ["full"] }
tokio = { version = "1", features = ["full"] }
tonic = "0.7"
tower = { version = "0.4", features = ["full"] }
prost = "0.10"
