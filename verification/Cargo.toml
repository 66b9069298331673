[package]
name = "duel_sim"
version = "0.1.0"
edition = "2021"
publish = false

[dependencies]
bytemuck = { version = "=1.25.2", features = ["derive"] }
clap = { version = "=4.6.7", features = ["derive"] }
ggrs = { version = "0.10", features = ["sync-send"] }
iunorm = "=0.2.2"
