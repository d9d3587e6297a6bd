[package]
name = "payroll_store"
version = "0.1.0"
edition = "2021"
publish = false

[dependencies]
once_cell = "*"
serde = { version = "*", features = ["derive"] }
serde_json = "*"
