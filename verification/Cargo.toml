[package]
name = "rock_paper_scissors"
version = "0.1.0"
edition = "2021"
publish = false

[dependencies]
cosmwasm-std = "1"
cw-storage-plus = "0.10"
cw-controllers = "0.10"
cw0 = "0.10"
cw2 = "0.10"
schemars = "0.8"
serde = { version = "1", features = ["derive"] }
thiserror = "1"
