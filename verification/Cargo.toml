[package]
name = "bot_arena"
version = "0.1.0"
edition = "2021"
publish = false

[dependencies]
rand = "0.8"
log = "0.4"
clap = { version = "4", features = ["derive"] }
chrono = "0.4"
thiserror = "1"
macroquad = "0.4"
rust-embed = "8"
wasm-bindgen = "0.2"
