[package]
name = "tako_desktop"
version = "0.1.0"
edition = "2021"
publish = false

[dependencies]
dirs = "5"
serde_json = "1"
url = "2"
serde = { version = "1", features = ["derive"] }
tokio = { version = "1", features = ["full"] }
reqwest = { version = "0.12", default-features = false, features = ["json", "rustls-tls"] }
zip = { version = "2", default-features = false, features = ["deflate"] }
libc = "0.2"
