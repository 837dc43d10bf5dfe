[package]
name = "mygpoclient"
version = "0.1.0"
edition = "2021"
publish = false

[dependencies]
url = "=2.5.8"
reqwest = { version = "=0.13.5", default-features = false, features = ["blocking", "query"] }
serde = "=1.0.229"
serde_json = "=1.0.151"
