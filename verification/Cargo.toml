[package]
name = "hydrabadger"
version = "0.1.0"
edition = "2021"
publish = false

[dependencies]
hbbft = "0.1"
futures = "0.1"
tokio = "0.1"
parking_lot = "0.7"
serde = "1"
bincode = "1"
