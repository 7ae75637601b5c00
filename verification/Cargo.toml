[package]
name = "typed_store"
version = "0.1.0"
edition = "2021"
publish = false

[dependencies]
bincode = "1.3"
serde = "1"
sled = "0.34"
tokio = { version = "1", default-features = false, features = ["rt", "rt-multi-thread"] }
futures = { version = "0.3", default-features = false, features = ["std"] }
