[package]
name = "reason"
version = "0.1.0"
edition = "2021"
publish = false

[dependencies]
ansi_term = "*"
confy = "*"
home = "*"
rustyline = "*"
rustyline-derive = "*"
serde = { version = "*", features = ["derive"] }
