[package]
name = "rust_audio_engine"
version = "0.1.0"
edition = "2021"
publish = false

[dependencies]
anyhow = "1"
hound = "3"
midly = "*"
rustysynth = "*"
realfft = "3"
rustfft = "6"
serde = { version = "1", features = ["derive"] }
pyo3 = { version = "0.22", features = ["extension-module"] }
metal = "*"
core-foundation = "*"
