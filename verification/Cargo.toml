[package]
name = "all_origins_rust"
version = "0.1.0"
edition = "2021"
publish = false

[dependencies]
http = "*"
reqwest = { version = "*", default-features = false, features = ["rustls-tls"] }
serde = { version = "*", features = ["derive"] }
tokio = { version = "*", features = ["full"] }
warp = { version = "*", features = ["tls"] }

[dev-dependencies]
serde_json = "*"
