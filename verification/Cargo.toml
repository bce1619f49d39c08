[package]
name = "quecksilber"
version = "0.1.0"
edition = "2021"
publish = false

[dependencies]
iced = { version = "=0.14.0", default-features = false, features = ["canvas", "tiny-skia", "advanced", "x11", "smol"] }
rand = "=0.9.5"
clap = { version = "=4.6.7", features = ["derive"] }
image = { version = "=0.25.10", default-features = false, features = ["png"] }
