[package]
name = "invoicely"
version = "0.1.0"
edition = "2021"
publish = false

[dependencies]
anyhow = "=1.0.104"
bigdecimal = { version = "=0.4.11", features = ["serde"] }
clap = { version = "=4.6.7", features = ["derive"] }
font-kit = "=0.14.3"
printpdf = { version = "=0.8.2", features = ["png", "jpeg"] }
reqwest = { version = "=0.12.28", features = ["blocking"] }
serde = { version = "=1.0.229", features = ["derive"] }
serde_json = "=1.0.154"
