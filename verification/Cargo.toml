[package]
name = "notation_tab"
version = "0.1.0"
edition = "2021"
publish = false

[dependencies]
syn = "=2.0.119"
proc-macro2 = "=1.0.107"
quote = "=1.0.47"
anyhow = "=1.0.104"
serde = { version = "=1.0.229", features = ["derive"] }
bevy = { version = "0.16", default-features = false, features = ["std", "bevy_window", "bevy_state"] }
