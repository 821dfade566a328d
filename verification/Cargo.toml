[package]
name = "explorer_robot"
version = "0.1.0"
edition = "2021"
publish = false

[dependencies]
heapless = "=0.8.0"
nanorand = { version = "=0.8.0", default-features = false, features = ["wyrand"] }
moving_median = "=0.4.0"
libm = "=0.2.16"
sequential-storage = "=7.2.0"
embedded-hal = "=1.0.0"
embedded-hal-async = "1"
embedded-io-async = "=0.7.0"
embedded-storage-async = "=0.4.2"
embassy-embedded-hal = "=0.6.0"
embassy-sync = "=0.8.0"
embassy-time = "=0.5.1"
embassy-futures = "=0.1.2"
embassy-executor = { version = "=0.10.0", features = ["platform-std", "executor-thread"] }
embassy-rp = { version = "=0.10.0", features = ["rp235xb", "time-driver", "critical-section-impl", "_test"] }
icm20948-rs = { version = "=0.2.3", features = ["async", "dmp"] }
nalgebra = { version = "=0.34.2", default-features = false, features = ["libm"] }
micromath = "=2.1.0"
static_cell = "=2.1.1"
defmt = "1"
