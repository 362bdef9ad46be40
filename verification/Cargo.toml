[package]
name = "tunlib"
version = "0.1.0"
edition = "2021"
publish = false

[dependencies]
rayon = "1"
tokio = { version = "1", default-features = false, features = ["rt", "rt-multi-thread", "time", "net", "io-util"] }
log = "0.4"
simplelog = "*"
