[package]
name = "backend"
version = "0.1.0"
edition = "2021"
publish = false

[dependencies]
axum = "*"
tokio = { version = "*", features = ["full"] }

[dev-dependencies]
tower = { version = "*", features = ["util"] }
http = "*"
http-body-util = "*"
