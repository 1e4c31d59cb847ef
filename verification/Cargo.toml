[package]
name = "python_distribution"
version = "0.1.0"
edition = "2021"
publish = false

[dependencies]
python-packaging = "0.1"
starlark = "0.3"
anyhow = "1"
slog = "2"
itertools = "0.9"
