[package]
name = "oxide_cli"
version = "0.1.0"
edition = "2021"
publish = false

[dependencies]
toml_edit = "=0.14.4"
anyhow = "1"
clap = { version = "=3.2.25", features = ["derive", "env"] }
dialoguer = "=0.10.4"
serde_json = "1"
tabled = "=0.5.0"
ansi_term = "=0.12.1"
async-trait = "0.1"
tokio = { version = "1", features = ["rt-multi-thread", "macros"] }
oxide-api = "=0.1.0-rc.30"
combine = "=4.6.6"
