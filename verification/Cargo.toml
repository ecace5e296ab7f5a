[package]
name = "spotifyd_config"
version = "0.1.0"
edition = "2021"
publish = false

[dependencies]
clap = { version = "4.5", features = ["derive"] }
color-eyre = { version = "0.6", default-features = false }
directories = "6.0"
gethostname = "1.0"
hex = "0.4"
librespot-core = "0.4"
librespot-playback = { version = "0.4", default-features = false }
log = "0.4"
serde = { version = "1.0", features = ["derive"] }
sha1 = "0.10"
toml = "0.8"
url = "2.5"
