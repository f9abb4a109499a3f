[package]
name = "encoder_firmware"
version = "0.1.0"
edition = "2021"
publish = false

[dependencies]
defmt = "=0.3.101"
defmt-rtt = "=0.4.2"
embedded-graphics = "=0.8.2"
panic-probe = { version = "=0.3.2", features = ["print-defmt"] }
rtic = { version = "=2.4.0", features = ["thumbv7-backend"] }
rtic-monotonics = { version = "=1.5.0", features = ["cortex-m-systick", "systick-64bit"] }
ssd1306 = "=0.8.4"
stm32f7xx-hal = { version = "=0.8.0", features = ["stm32f767", "rt"] }
