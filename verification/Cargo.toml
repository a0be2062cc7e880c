[package]
name = "elevator_rig"
version = "0.1.0"
edition = "2021"
publish = false

[dependencies]
rppal = { version = "*", features = ["hal"] }
signal-hook = "*"
stoppable_thread = "*"
embedded-graphics = "*"
ssd1306 = "*"
bme280 = "*"
