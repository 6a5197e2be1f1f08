[package]
name = "sip_arcium_transfer"
version = "0.1.0"
edition = "2021"
publish = false

[dependencies]
anchor-lang = { version = "=0.32.2", features = ["init-if-needed"] }
arcium-anchor = "=0.5.4"
