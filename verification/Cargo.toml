[package]
name = "parchive"
version = "0.1.0"
edition = "2021"
publish = false

[dependencies]
anyhow = "1"
clap = { version = "4", features = ["derive"] }
crossbeam = "0.8"
num_cpus = "1"
rayon = "1"
strum = { version = "0.26", features = ["derive"] }
tar = "0.4"
walkdir = "2"
zip = { version = "2", default-features = false, features = ["deflate"] }
zstd = { version = "0.13", features = ["zstdmt"] }

[dev-dependencies]
blake3 = "1"
