[package]
name = "jj_bridge"
version = "0.1.0"
edition = "2021"
publish = false

[dependencies]
serde_json = "1"
tokio = { version = "1", default-features = false, features = ["process", "rt-multi-thread", "macros"] }
