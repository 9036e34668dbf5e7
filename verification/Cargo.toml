[package]
name = "tilewalk"
version = "0.1.0"
edition = "2021"
publish = false

[dependencies]
bevy = { version = "0.16", default-features = false, features = ["std", "async_executor"] }
bevy_quadtree = { version = "0.16", default-features = false }
