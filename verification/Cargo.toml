[package]
name = "foruster"
version = "0.1.0"
edition = "2021"
publish = false

[dependencies]
md-5 = "0.10"
sha2 = "0.10"
blake3 = { version = "1", features = ["pure"] }
hex = "0.4"
anyhow = "1"
tokio = { version = "1", features = ["rt-multi-thread"] }
async-walkdir = "*"
futures-lite = "*"
file-format = "*"
tree_magic_mini = "*"
genpdfi = "*"
unicode-segmentation = "1"
chrono = "0.4"
serde_json = "1"
once_cell = "1"
