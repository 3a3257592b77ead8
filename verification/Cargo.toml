[package]
name = "number_general"
version = "0.1.0"
edition = "2021"
publish = false

[dependencies]
fraction = "=0.17.0"
standardform = { version = "=0.1.9", features = ["num", "nom", "hash"] }
num-traits = "=0.2.19"
ordered-float = "=5.5.0"
thiserror = "=1.0.69"
nom = "=7.1.3"
