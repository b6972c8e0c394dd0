[package]
name = "bjr_logic"
version = "0.1.0"
edition = "2021"
publish = false

[dependencies]
heapless = "=0.8.0"
embedded-time = "=0.12.1"
libm = "=0.2.16"
fast-math = "=0.1.1"
nalgebra = "=0.33.3"
strum = { version = "=0.26.3", features = ["derive"] }
strum_macros = "=0.26.4"
menu = "=0.5.1"
postcard = "=1.1.3"
serde = { version = "=1.0.229", features = ["derive"] }
log = "=0.4.35"
env_logger = "=0.11.11"
