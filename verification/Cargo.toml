[package]
name = "pro"
version = "0.1.0"
edition = "2021"
publish = false

[dependencies]
colored = "*"
home = "*"
serde = "*"
serde_derive = "*"
tiny_http = "*"
toml = "*"
url = "*"

[dev-dependencies]
serde_json = "*"
