[package]
name = "coffee_stain"
version = "0.1.0"
edition = "2021"
publish = false

[dependencies]
clap = { version = "=4.6.7", features = ["derive"] }
colored = "=2.2.0"
difference = "=2.0.0"
itertools = "=0.15.0"
