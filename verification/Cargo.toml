[package]
name = "mxaz3166_board"
version = "0.1.0"
edition = "2021"
publish = false

[dependencies]
cortex-m = "0.7"
cortex-m-rt = "*"
defmt = "*"
defmt-rtt = "*"
embedded-graphics = "*"
embedded-hal = "1.0"
heapless = "*"
hts221 = "*"
panic-probe = "*"
ssd1306 = "*"
stm32f4xx-hal = { version = "*", features = ["stm32f412"] }
