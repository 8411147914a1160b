[package]
name = "knobmuse"
version = "0.1.0"
edition = "2021"
publish = false

[dependencies]
eframe = { version = "0.31", default-features = false, features = ["default_fonts", "glow", "x11"] }
egui = "0.31"
log = "0.4"
wasm-bindgen-futures = "0.4"
atomic_float = "1"
