[package]
name = "spacegame2d"
version = "0.1.0"
edition = "2021"
publish = false

[dependencies]
blake3 = { version = "1", default-features = false, features = ["std", "pure"] }
prost = "*"
serde = { version = "1", features = ["derive"] }
serde_json = "1"
unicode-general-category = "*"
unicode-normalization = "*"
unicode-segmentation = "1"
