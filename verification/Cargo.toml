[package]
name = "sounddeck"
version = "0.1.0"
edition = "2021"
publish = false

[dependencies]
ab_glyph = "=0.2.32"
anyhow = "=1.0.104"
ctrlc = "=3.5.2"
env_logger = "=0.11.11"
image = { version = "=0.25.10", default-features = false, features = ["png", "jpeg", "gif", "bmp"] }
imageproc = { version = "=0.27.0", default-features = false, features = ["text"] }
log = "=0.4.34"
m3u = "=1.0.0"
paho-mqtt = "=0.14.0"
rodio = "=0.23.0"
serde = { version = "=1.0.229", features = ["derive"] }
streamdeck = "=0.10.0"
toml = "=1.1.8"
