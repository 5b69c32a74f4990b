[package]
name = "taskpool"
version = "0.1.0"
edition = "2021"
publish = false

[dependencies]
num_cpus = "*"
anyhow = "*"
colored = "*"
dotenv = "*"
humantime = "*"
log = "*"
reqwest = { version = "*", default-features = false, features = ["blocking"] }
