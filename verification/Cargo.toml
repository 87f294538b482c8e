[package]
name = "ad_core"
version = "0.1.0"
edition = "2021"
publish = false

[dependencies]
break_infinity = "*"
serde = { version = "1", features = ["derive"] }
