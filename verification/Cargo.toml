[package]
name = "speedy"
version = "0.1.0"
edition = "2021"
publish = false

[dependencies]
base64 = "=0.22.1"
unicode-width = "=0.2.2"
unicode-segmentation = "=1.13.3"
ab_glyph = "=0.2.32"
imageproc = { version = "=0.27.0", default-features = false, features = ["text"] }
crossterm = "=0.29.0"
ratatui = "=0.30.2"
arboard = { version = "=3.7.0", default-features = false }
pdf-extract = "=0.12.1"
thiserror = "=2.0.21"
lazy_static = "=1.5.1"
epub = "*"
