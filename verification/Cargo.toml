[package]
name = "gtoolkit_installer"
version = "0.1.0"
edition = "2021"
publish = false

[dependencies]
regex = "*"
mustache = "*"
url = "*"
tokio = { version = "*", features = ["full"] }
reqwest = { version = "*", default-features = false }
futures = "*"
zip = "*"
file-matcher = "*"
to_absolute = "*"
walkdir = "*"
serde = { version = "*", features = ["derive"] }
serde-xml-rs = "*"
