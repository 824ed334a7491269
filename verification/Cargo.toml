[package]
name = "ore_session"
version = "0.1.0"
edition = "2021"
publish = false

[dependencies]
jni = "0.21"
tokio = { version = "1", features = ["rt-multi-thread", "sync", "time"] }
