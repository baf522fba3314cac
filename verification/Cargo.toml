[package]
name = "coop_kernel"
version = "0.1.0"
edition = "2021"
publish = false

[dependencies]
heapless = "=0.8.0"
critical-section = { version = "=1.2.0", features = ["std"] }
embedded-graphics = "=0.8.2"
display-interface = "=0.5.0"
ssd1306 = "=0.10.0"
