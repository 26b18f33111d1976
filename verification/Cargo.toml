[package]
name = "spotify_cli"
version = "0.1.0"
edition = "2021"
publish = false

[dependencies]
clap = { version = "*", features = ["derive"] }
tokio = { version = "*", features = ["macros", "rt", "time"] }
zbus = "*"
zvariant = "*"
