[package]
name = "hank"
version = "0.1.0"
edition = "2021"
publish = false

[dependencies]
cliclack = "*"
console = "*"
dirs = "*"
regex = "1"
serde = { version = "1", features = ["derive"] }
serde_json = "1"
strum = { version = "*", features = ["derive"] }
