[package]
name = "propose"
version = "0.1.0"
edition = "2021"
publish = false

[dependencies]
meval = "0.2"
itertools = "*"
pest_consume = "1"
pest = "2"
anyhow = "1"
clap = { version = "4", features = ["derive"] }
thiserror = "1"
serde = { version = "1", features = ["derive"] }
if_chain = "1"
lazy_static = "1"
