[package]
name = "ewkb"
version = "0.1.0"
edition = "2021"
publish = false

[dependencies]
byteorder = "=1.5.0"
diesel = { version = "=0.14.1", features = ["postgres"] }
geo = "=0.33.1"

[dev-dependencies]
rustc-serialize = "=0.3.25"
