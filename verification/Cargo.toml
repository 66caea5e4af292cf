[package]
name = "vizia_views"
version = "0.1.0"
edition = "2021"
publish = false

[dependencies]
chrono = { version = "=0.4.45", default-features = false, features = ["std"] }
unicode-segmentation = "=1.13.3"
fxhash = "=0.2.1"
comrak = { version = "*", default-features = false }
open = "*"
