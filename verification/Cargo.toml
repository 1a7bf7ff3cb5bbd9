[package]
name = "threadid"
version = "0.1.0"
edition = "2021"
publish = false

[dependencies]
bytemuck = "=1.25.2"
equivalent = "=1.0.3"
nonmax = "=0.5.5"
parking_lot = "=0.12.5"
portable-atomic = "=1.15.0"
serde = { version = "=1.0.229", features = ["derive"] }
slog = "=2.8.2"

[dev-dependencies]
crossbeam-utils = "0.8"
