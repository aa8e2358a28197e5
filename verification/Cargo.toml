[package]
name = "covnes"
version = "0.1.0"
edition = "2021"
publish = false

[dependencies]
anyhow = "1"
sdl2 = "*"
structopt = "0.3"
thiserror = "1"
wasm-bindgen = "0.2"
