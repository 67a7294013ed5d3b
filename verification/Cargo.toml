[package]
name = "juicer"
version = "0.1.0"
edition = "2021"
publish = false

[dependencies]
fetchlib = "*"
once_cell = "1"
serde = { version = "1", features = ["derive"] }
directories = "*"
