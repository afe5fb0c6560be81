[package]
name = "wechat"
version = "0.1.0"
edition = "2021"
publish = false

[dependencies]
regex = "1"
serde_json = "1"
hyper = "0.10"
hyper-native-tls = "0.3"
lazy_static = "1"
libc = "0.2"
glib-sys = "*"
