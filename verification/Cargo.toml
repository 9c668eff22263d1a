[package]
name = "media"
version = "0.1.0"
edition = "2021"
publish = false

[dependencies]
bson = "2"
mime = "0.3"
url = "2"
rust-s3 = "0.35"
reqwest = { version = "0.12", default-features = false }
tokio = { version = "1", default-features = false, features = ["rt-multi-thread", "macros"] }
