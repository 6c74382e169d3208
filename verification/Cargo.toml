[package]
name = "scoreforge_display"
version = "0.1.0"
edition = "2021"
publish = false

[dependencies]
convex = "*"
tokio = { version = "*", features = ["rt-multi-thread", "sync", "time", "macros"] }
futures = "*"
