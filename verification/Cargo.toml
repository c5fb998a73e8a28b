[package]
name = "spotify_connect"
version = "0.1.0"
edition = "2021"
publish = false

[dependencies]
librespot-connect = "0.4"
librespot-core = "0.4"
librespot-playback = { version = "0.4", default-features = false }
log = "0.4"
tokio = { version = "1", features = ["rt-multi-thread", "macros"] }
