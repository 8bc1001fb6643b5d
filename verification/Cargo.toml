[package]
name = "musig2_example"
version = "0.1.0"
edition = "2021"
publish = false

[dependencies]
musig2 = "=0.4.1"
secp256k1 = { version = "=0.31.1", features = ["rand"] }
rand = "=0.9.5"
hex = "=0.4.3"
uuid = { version = "=1.29.0", features = ["v4"] }
serde = { version = "=1.0.229", features = ["derive"] }
serde_json = "=1.0.154"
tokio = { version = "=1.54.1", features = ["full"] }
warp = { version = "=0.3.7", default-features = false }
reqwest = { version = "=0.13.5", default-features = false, features = ["json"] }
clap = { version = "=4.6.7", features = ["derive"] }
futures = "=0.3.34"
tokio-tungstenite = "=0.30.0"
tungstenite = "=0.30.0"
