[package]
name = "synth_core"
version = "0.1.0"
edition = "2021"
publish = false

[dependencies]
defmt = "*"
defmt-rtt = "*"
display-interface-spi = "0.5"
embassy-executor = "*"
embassy-futures = "*"
embassy-stm32 = { version = "*", features = ["stm32u545re", "time-driver-any", "exti"] }
embassy-sync = "*"
embassy-time = "*"
embedded-graphics = "0.8"
embedded-hal-bus = "*"
heapless = "0.8"
micromath = "2"
mipidsi = "0.8"
panic-probe = "*"
rodio = { version = "*", default-features = false }
static_cell = "2"
