[package]
name = "rscache"
version = "0.1.0"
edition = "2021"
publish = false

[dependencies]
serde = { version = "1", features = ["derive"] }
flate2 = "1"
bzip2 = "*"
