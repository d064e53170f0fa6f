[package]
name = "blossom"
version = "0.1.0"
edition = "2021"
publish = false

[dependencies]
anyhow = "*"
base16ct = { version = "*", features = ["alloc"] }
blake3 = "*"
bzip2 = "*"
clap = { version = "*", features = ["derive"] }
flate2 = "*"
indicatif = "*"
reqwest = "*"
serde = { version = "*", features = ["derive"] }
sha2 = "*"
spdx = "*"
tar = "*"
tokio = { version = "*", features = ["macros", "rt-multi-thread"] }
toml_edit = { version = "0.22", features = ["serde"] }
tracing = "*"
tracing-subscriber = "*"
url = "*"
xz2 = "*"
