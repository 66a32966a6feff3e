[package]
name = "move_model"
version = "0.1.0"
edition = "2021"
publish = false

[dependencies]
regex = "=1.13.1"
serde = { version = "=1.0.229", features = ["derive"] }
codespan = "=0.11.1"
codespan-reporting = "=0.11.1"
num = "=0.4.3"
sha2 = "0.10"
