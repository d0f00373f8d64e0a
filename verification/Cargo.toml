[package]
name = "game_bridge"
version = "0.1.0"
edition = "2021"
publish = false

[dependencies]
bevy = { version = "=0.15.3", default-features = false, features = ["multi_threaded"] }
libloading = "=0.8.9"
num-traits = "=0.2.19"
