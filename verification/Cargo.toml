[package]
name = "push2_pong"
version = "0.1.0"
edition = "2021"
publish = false

[dependencies]
anyhow = "=1.0.104"
embedded-graphics = "=0.7.1"
gameloop = "=0.2.0"
midir = "=0.11.1"
push2_display = "=0.2.0"
thiserror = "=1.0.69"
