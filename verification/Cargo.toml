[package]
name = "logi_led"
version = "0.1.0"
edition = "2021"
publish = false

[dependencies]
anyhow = "1"
clap = { version = "4", features = ["derive"] }
clap_complete = "4"
hidapi = "2"
num_enum = "*"
phf = { version = "*", features = ["macros"] }
rusb = "*"
serde = { version = "1", features = ["derive"] }
strum = "*"
strum_macros = "*"
toml = "*"
