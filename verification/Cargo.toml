[package]
name = "gen_struct"
version = "0.1.0"
edition = "2021"
publish = false

[dependencies]
syn = { version = "2", features = ["full"] }
quote = "1"
proc-macro2 = "1"
clap = { version = "4", features = ["derive", "env"] }
