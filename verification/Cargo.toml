[package]
name = "csv_schema"
version = "0.1.0"
edition = "2021"
publish = false

[dependencies]
arrow = { version = "*", default-features = false, features = ["csv"] }
clap = { version = "*", features = ["derive"] }
tabled = "*"
