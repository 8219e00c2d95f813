[package]
name = "collection_lookup"
version = "0.1.0"
edition = "2021"
publish = false

[dependencies]
uuid = "1"
tokio = { version = "1", default-features = false, features = ["sync"] }
futures = "0.3"
itertools = "0.10"
serde = { version = "1", features = ["derive"] }
schemars = "0.8"
