[package]
name = "chiselstore"
version = "0.1.0"
edition = "2021"
publish = false

[dependencies]
tonic = "0.8.3"
prost = "0.11.9"
tokio = { version = "1", features = ["rt", "macros"] }
async-trait = "0.1"
crossbeam = "0.8"
async-mutex = "1.4"
derivative = "2.2"
