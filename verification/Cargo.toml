[package]
name = "tv"
version = "0.1.0"
edition = "2021"
publish = false

[dependencies]
polars = { version = "*", default-features = false, features = ["lazy", "csv"] }
ratatui = { version = "*", default-features = false, features = ["crossterm"] }
rayon = "*"
tokio = { version = "*", default-features = false, features = ["rt"] }
tracing = "*"
tracing-error = "*"
tracing-subscriber = { version = "*", default-features = false, features = ["fmt", "std", "registry"] }
