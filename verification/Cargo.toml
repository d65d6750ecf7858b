[package]
name = "env_monitor"
version = "0.1.0"
edition = "2021"
publish = false

[dependencies]
bme680 = "=0.6.0"
chrono = { version = "=0.4.45", default-features = false }
cortex-m = "=0.7.10"
cortex-m-rt = "=0.7.7"
display-interface = "=0.4.1"
ds323x = "=0.3.2"
embedded-graphics = "=0.7.1"
embedded-sdmmc = "=0.3.0"
err-derive = { version = "=0.3.1", default-features = false }
heapless = "=0.7.17"
log = "=0.4.34"
profont = "=0.5.0"
ssd1306 = "=0.7.1"
stm32f4xx-hal = { version = "=0.11.1", features = ["rt", "stm32f411"] }
