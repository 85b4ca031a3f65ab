[package]
name = "nthash"
version = "0.1.0"
edition = "2021"
publish = false

[dependencies]
obfstr = "0.4"
widestring = "1"
winapi = { version = "0.3", features = ["ntdef", "winnt", "minwindef"] }
ntapi = "0.4"
bincode = { version = "2", default-features = false, features = ["std"] }
