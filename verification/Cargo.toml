[package]
name = "cargo_fl"
version = "0.1.0"
edition = "2021"
publish = false

[dependencies]
syn = { version = "2", features = ["full", "visit"] }
proc-macro2 = { version = "1", features = ["span-locations"] }
quote = "1"
serde = { version = "1", features = ["derive"] }
serde_json = "1"
bincode = "1"
toml = "*"
clap = { version = "4", features = ["derive"] }
colored = "*"
indicatif = "*"
ignore = "*"
memmap2 = "*"
rayon = "*"
tokio = { version = "1", features = ["full"] }
tower-lsp = "*"
