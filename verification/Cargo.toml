[package]
name = "distgen"
version = "0.1.0"
edition = "2021"
publish = false

[dependencies]
anyhow = "1"
colored = "*"
convert_case = "*"
serde_json = "1"
tera = "1"
