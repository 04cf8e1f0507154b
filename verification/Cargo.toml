[package]
name = "gimbal_core"
version = "0.1.0"
edition = "2021"
publish = false

[dependencies]
cortex-m = { version = "=0.7.10", features = ["inline-asm", "critical-section-single-core"] }
cortex-m-rt = "=0.7.7"
defmt = "=1.2.0"
defmt-rtt = "=1.3.1"
embassy-executor = "=0.10.0"
embassy-stm32 = { version = "=0.6.0", features = ["stm32f412re", "time-driver-any", "memory-x", "executor-thread", "executor-interrupt"] }
embassy-sync = "=0.8.0"
embassy-time = { version = "=0.5.1", features = ["tick-hz-1_000_000"] }
embedded-io-async = "=0.7.0"
panic-probe = { version = "=1.0.0", features = ["print-defmt"] }
