[package]
name = "genawaiter"
version = "0.99.1"
edition = "2021"
publish = false

[dependencies]
futures-core = "0.3"
proc-macro2 = "1"
quote = "1"
syn = { version = "1", features = ["full", "visit-mut"] }

[dev-dependencies]
futures = "0.3"
