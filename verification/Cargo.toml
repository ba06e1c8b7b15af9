[package]
name = "svd_compress"
version = "0.1.0"
edition = "2021"
publish = false

[dependencies]
faer-core = "*"
faer-svd = "*"
rayon = "*"
image = { version = "*", default-features = false, features = ["png", "jpeg", "gif", "bmp", "tiff", "webp", "ico", "tga", "pnm"] }
