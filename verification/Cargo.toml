[package]
name = "selfie"
version = "0.1.0"
edition = "2021"
publish = false

[dependencies]
anyhow = "1"
async-trait = "0.1"
clap = { version = "4", features = ["derive"] }
console = "*"
futures = "0.3"
indicatif = "*"
jiff = "*"
num_cpus = "1"
regex = "1"
serde = { version = "1", features = ["derive"] }
serde_yaml = "0.9"
shellexpand = "*"
thiserror = "*"
tokio = { version = "1", features = ["full"] }
url = "2"
