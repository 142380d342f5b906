[package]
name = "grm"
version = "0.1.0"
edition = "2021"
publish = false

[dependencies]
anyhow = "*"
bstr = "*"
clap = { version = "*", features = ["derive"] }
gix-url = "*"
shell-escape = "*"
