[package]
name = "post_service"
version = "0.1.0"
edition = "2021"
publish = false

[dependencies]
hyper = { version = "0.14", features = ["server", "http1", "tcp"] }
rusqlite = { version = "*", features = ["uuid"] }
serde_urlencoded = "0.7"
tera = { version = "1", default-features = false }
tokio = { version = "1", features = ["macros", "rt-multi-thread", "sync"] }
uuid = { version = "1", features = ["v4"] }
