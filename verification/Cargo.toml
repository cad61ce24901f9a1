[package]
name = "disp_writer"
version = "0.1.0"
edition = "2021"
publish = false

[dependencies]
anyhow = "1"
serde = { version = "1", features = ["derive"] }
toml = "0.8"
rppal = { version = "0.22", features = ["hal"] }
ssd1306 = "0.9"
embedded-graphics = "0.8"
display-interface-i2c = "0.5"
