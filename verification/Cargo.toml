[package]
name = "d2sed"
version = "0.1.0"
edition = "2021"
publish = false

[dependencies]
anyhow = "1"
confy = "*"
iced = { version = "0.14", default-features = false }
libd2 = "*"
rfd = { version = "*", default-features = false }
serde = { version = "1", features = ["derive"] }
serde_derive = "1"
