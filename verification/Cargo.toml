[package]
name = "drone_flight_controller"
version = "0.1.0"
edition = "2021"
publish = false

[dependencies]
cortex-m = "0.7"
cortex-m-rt = "*"
stm32f3xx-hal = { version = "0.8", features = ["stm32f303xc", "rt"] }
lsm303agr = "0.2"
i3g4250d = "*"
panic-itm = "*"
