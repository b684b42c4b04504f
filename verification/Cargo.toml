[package]
name = "fcgi_front"
version = "0.1.0"
edition = "2021"
publish = false

[dependencies]
mime_guess = "=2.0.5"
tokio = { version = "=1.53.2", features = ["rt-multi-thread", "net", "io-util", "fs", "macros", "time"] }
clap = { version = "=4.6.7", features = ["derive"] }
fastcgi-client = { version = "=0.12.0", features = ["tokio"] }
anyhow = "=1.0.104"
