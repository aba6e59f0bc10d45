[package]
name = "plumb"
version = "0.1.0"
edition = "2021"
publish = false

[dependencies]
dot-parser = "*"
quadtree_rs = "*"
serde = { version = "*", features = ["derive"] }
