[package]
name = "gpu_profiler"
version = "0.1.0"
edition = "2021"
publish = false

[dependencies]
cpp_demangle = "*"
libc = "*"
once_cell = "*"
perfetto-sdk = "*"
perfetto-sdk-protos-gpu = "*"
