[package]
name = "cerberus"
version = "0.1.0"
edition = "2021"
publish = false

[dependencies]
arrayref = "=0.3.9"
bitfield = "=0.13.2"
cortex-m = "=0.7.10"
cortex-m-rt = "=0.7.7"
defmt = "=0.3.101"
defmt-rtt = "=0.4.2"
embassy-embedded-hal = "=0.3.2"
embassy-executor = { version = "=0.7.0", features = ["arch-std", "executor-thread"] }
embassy-futures = "=0.1.2"
embassy-stm32 = { version = "=0.2.0", features = ["stm32f405rg", "time-driver-any", "exti", "memory-x"] }
embassy-sync = "=0.6.2"
embassy-time = "=0.4.0"
embedded-hal-async = "=1.0.0"
heapless = "=0.8.0"
panic-probe = "=0.3.2"
static_cell = "=2.1.1"
