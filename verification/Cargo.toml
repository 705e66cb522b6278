[package]
name = "radcam_manager"
version = "0.1.0"
edition = "2021"
publish = false

[dependencies]
base16ct = { version = "0.2", features = ["alloc"] }
clap = { version = "4", features = ["derive"] }
md-5 = "0.10"
shellexpand = "3"
