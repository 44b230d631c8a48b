[package]
name = "grep_caselaw"
version = "0.1.0"
edition = "2021"
publish = false

[dependencies]
clap = "2"
glob = "0.3"
rayon = "1"
redis = { version = "*", default-features = false }
regex = "1"
serde = "1"
serde_derive = "1"
serde_json = "1"
