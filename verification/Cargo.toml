[package]
name = "declarative_env"
version = "0.1.0"
edition = "2021"
publish = false

[dependencies]
proc-macro2 = "1"
syn = "2"
serde = { version = "1", features = ["derive"] }
deser-hjson = "*"
