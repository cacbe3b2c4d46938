[package]
name = "copylot"
version = "0.1.0"
edition = "2021"
publish = false

[dependencies]
serde = { version = "1", features = ["derive"] }
serde_json = "1"
log = "0.4"
arboard = "3"
enigo = "0.6"
openai = "1"
