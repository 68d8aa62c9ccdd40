[package]
name = "coretoolbox"
version = "0.1.0"
edition = "2021"
publish = false

[dependencies]
nix = { version = "0.29", features = ["process", "user"] }
rand = "0.8"
structopt = "0.3"

[dev-dependencies]
serde_json = "1"
