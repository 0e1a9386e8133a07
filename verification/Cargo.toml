[package]
name = "spi_sensors"
version = "0.1.0"
edition = "2021"
publish = false

[dependencies]
defmt = "=0.3.101"
defmt-rtt = "=0.4.2"
embassy-executor = { version = "=0.5.1", features = ["arch-std", "executor-thread", "integrated-timers", "defmt"] }
embassy-stm32 = { version = "=0.1.0", features = ["stm32f303re", "time-driver-any", "defmt"] }
embassy-time = { version = "=0.3.2", features = ["defmt"] }
panic-probe = { version = "=0.3.2", features = ["print-defmt"] }
