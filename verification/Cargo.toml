[package]
name = "zpl_forge"
version = "0.1.0"
edition = "2021"
publish = false

[dependencies]
ab_glyph = "*"
base64 = "*"
font-loader = "*"
hex = "*"
image = "*"
imageproc = "*"
printpdf = "0.8"
rxing = "*"

[dev-dependencies]
nom = "8"
