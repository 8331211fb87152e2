[package]
name = "faena_etiquetas"
version = "0.1.0"
edition = "2021"
publish = false

[dependencies]
anyhow = "*"
async-std = "*"
confy = "*"
serde = { version = "*", features = ["derive"] }
tiberius = { version = "*", features = ["sql-browser-async-std"] }
