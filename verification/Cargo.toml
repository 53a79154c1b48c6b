[package]
name = "ais_runner"
version = "0.1.0"
edition = "2021"
publish = false

[dependencies]
shell-words = "*"
tokio = { version = "*", features = ["full"] }
notify = "*"
signal-hook = "*"
nix = { version = "*", features = ["signal"] }
once_cell = "*"
serde = { version = "*", features = ["derive"] }
serde_json = "*"
