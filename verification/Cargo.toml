[package]
name = "tau_radio"
version = "0.1.0"
edition = "2021"
publish = false

[dependencies]
anyhow = "*"
chrono = "*"
clap = { version = "*", features = ["derive"] }
cpal = "*"
crossbeam = "*"
dialoguer = "*"
inline_colorization = "*"
is-ip = "*"
opusenc = "*"
ringbuf = "*"
serde = { version = "*", features = ["derive"] }
shout = "*"
thiserror = "*"
toml = "*"
tungstenite = "*"
