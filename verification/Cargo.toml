[package]
name = "async_bench"
version = "0.1.0"
edition = "2021"
publish = false

[dependencies]
libc = "=0.2.190"
page_size = "=0.6.0"
core_affinity = "=0.8.3"
rand = "=0.8.8"
thread-priority = "=3.1.1"
criterion = { version = "=0.5.1", default-features = false }

[dev-dependencies]
crossbeam-utils = "0.8"
