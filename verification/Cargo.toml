[package]
name = "poster_wall"
version = "0.1.0"
edition = "2021"
publish = false

[dependencies]
image = "0.24"
imagequant = "4"
oxipng = "9"
clap = "4"
tokio = { version = "1", features = ["macros", "rt-multi-thread", "fs", "sync"] }
tracing = "0.1"
tracing-subscriber = "0.3"
