[package]
name = "helix_website"
version = "0.1.0"
edition = "2021"
publish = false

[dependencies]
hex = "0.4"
num-format = "0.4"
tokio = { version = "1", features = ["rt-multi-thread", "macros", "sync", "net", "time"] }
axum = "0.7"
deadpool-postgres = "*"
async-trait = "0.1"
