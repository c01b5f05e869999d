[package]
name = "config_validator"
version = "0.1.0"
edition = "2021"
publish = false

[dependencies]
anyhow = "1"
clap = { version = "4", features = ["derive"] }
clap_derive = "4"
config = "*"
log = "0.4"
log4rs = "1"
proc-macro2 = "1"
quote = "1"
serde = { version = "1", features = ["derive"] }
strum = "*"
strum_macros = "*"
syn = { version = "2", features = ["full", "extra-traits"] }
