[package]
name = "curl_block"
version = "0.1.0"
edition = "2021"
publish = false

[dependencies]
anyhow = "1"
async-trait = "0.1"
blake3 = { version = "1", features = ["pure"] }
js-sandbox = "0.2.0-rc.0"
pest = "2"
serde = { version = "1", features = ["derive"] }
serde_json = "1"
tokio = { version = "1", features = ["rt"] }
