[package]
name = "bodgestr"
version = "0.1.0"
edition = "2021"
publish = false

[dependencies]
clap = { version = "4", features = ["derive"] }
ctrlc = "3"
evdev = "0.12"
log = "0.4"
serde = { version = "1", features = ["derive"] }
thiserror = "1"
toml = "0.8"
