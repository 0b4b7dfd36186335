[package]
name = "pyapp"
version = "0.1.0"
edition = "2021"
publish = false

[dependencies]
anyhow = "1"
base64 = "0.22"
bzip2 = "*"
clap = { version = "4", features = ["derive"] }
directories = "*"
flate2 = "1"
fs4 = "*"
indicatif = "0.17"
once_cell = "1"
os_pipe = "1"
reqwest = { version = "0.12", default-features = false, features = ["blocking", "rustls-tls"] }
rustls = "0.23"
rustls-platform-verifier = "*"
tar = "0.4"
tempfile = "3"
zip = "*"
zstd = "*"
