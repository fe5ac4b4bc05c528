[package]
name = "openfare_js_lib"
version = "0.1.0"
edition = "2021"
publish = false

[dependencies]
serde_json = "*"
handlebars = "*"
openfare-lib = "*"
reqwest = { version = "*", default-features = false, features = ["blocking"] }
tempdir = "*"
anyhow = "*"
log = "*"
env_logger = "*"
