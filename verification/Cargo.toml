[package]
name = "stubborn_io"
version = "0.1.0"
edition = "2021"
publish = false

[dependencies]
tokio = { version = "1", features = ["net", "io-util", "time", "rt-multi-thread", "macros", "sync"] }
tokio-util = { version = "0.7", features = ["codec", "rt"] }
futures = "0.3"
rand = "0.8"
