[package]
name = "aetheris_core"
version = "0.1.0"
edition = "2021"
publish = false

[dependencies]
bcrypt = "0.15"
serde = { version = "1", features = ["derive"] }
serde_yaml_ng = "0.10"
clap = { version = "4", features = ["derive"] }
rpassword = "7"
tokio = { version = "1", features = ["full"] }
anyhow = "1"
async-trait = "0.1"
log = "0.4"
env_logger = "0.11"
nix = { version = "0.29", features = ["user"] }
sysinfo = "0.29"
which = "6"
