[package]
name = "outpost"
version = "0.1.0"
edition = "2021"
publish = false

[dependencies]
sled = "=0.34.7"
procfs = "=0.18.0"
gix = { version = "=0.88.0", default-features = false, features = ["blocking-network-client", "sha1"] }
home = "=0.5.12"
clap = { version = "=4.6.7", features = ["derive"] }
time = { version = "=0.3.55", features = ["formatting", "macros"] }
toml = "*"
serde = { version = "*", features = ["derive"] }
