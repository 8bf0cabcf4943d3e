[package]
name = "cache_bench"
version = "0.1.0"
edition = "2021"
publish = false

[dependencies]
cached = { version = "*", default-features = false }
lru = "*"
memory-stats = "*"
parking_lot = "*"
quick_cache = "*"
rayon = "*"
tabled = "*"
