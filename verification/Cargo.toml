[package]
name = "aion_program"
version = "0.1.0"
edition = "2021"
publish = false

[dependencies]
anyhow = "1"
hecs = "0.10"
parking_lot = "0.12"
rand = "0.8"
small_derive_deref = "0.1"
stable_deref_trait = "1"
thiserror = "2"
tokio = { version = "1", features = ["rt"] }
tracing = "0.1"
