[package]
name = "ohos_ime"
version = "0.1.0"
edition = "2021"
publish = false

[dependencies]
ohos-ime-sys = { version = "=0.2.5", features = ["api-12"] }
log = "=0.4.34"
