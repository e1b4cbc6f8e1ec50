[package]
name = "audio_stream"
version = "0.1.0"
edition = "2021"
publish = false

[dependencies]
audio_thread_priority = { version = "=0.38.0", default-features = false }
cpal = "=0.15.3"
crossbeam-channel = "=0.5.17"
fixed-resample = "=0.9.2"
freeverb = "=0.2.0"
log = "=0.4.34"
thiserror = "=2.0.21"
