[package]
name = "ssimulacra2_rs"
version = "0.1.0"
edition = "2021"
publish = false

[dependencies]
av-metrics-decoders = { version = "=0.3.2", default-features = false, features = ["y4m"] }
clap = { version = "*", features = ["derive"] }
crossterm = "*"
image = "*"
indicatif = "*"
jxl-oxide = { version = "*", features = ["image"] }
plotters = "*"
ssimulacra2 = "=0.5.1"
statrs = "*"
v_frame = "*"
