[package]
name = "core-invoice"
version = "0.1.0"
edition = "2021"
publish = false

[dependencies]
rust_decimal = "1"
roxmltree = "*"
thiserror = "*"
clap = { version = "4", features = ["derive"] }
