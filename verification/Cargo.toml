[package]
name = "corekit"
version = "0.1.0"
edition = "2021"
publish = false

[dependencies]
syn = { version = "2", features = ["full"] }
quote = "1"
proc-macro2 = "1"
tokio = { version = "1", features = ["time"] }
dotenvy = "0.15"

[dev-dependencies]
tokio = { version = "1", features = ["time", "rt", "macros"] }
