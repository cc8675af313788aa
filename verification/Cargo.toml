[package]
name = "smplr"
version = "0.1.0"
edition = "2021"
publish = false

[dependencies]
rand = "*"
hound = "*"
easer = "*"
crossbeam-channel = "*"
rosc = "*"
serde = { version = "*", features = ["derive"] }
serde_json = "*"
toml = "*"
wmidi = "*"
dirs = "*"
