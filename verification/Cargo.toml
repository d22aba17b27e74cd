[package]
name = "time_saver"
version = "0.1.0"
edition = "2021"
publish = false

[dependencies]
cortex-m = "=0.7.9"
cortex-m-rt = "=0.7.7"
embedded-hal = "=0.2.7"
rotary-encoder-embedded = "=0.5.0"
rtt-target = "=0.6.2"
stm32f7xx-hal = { version = "=0.8.0", features = ["stm32f767", "rt"] }
