[package]
name = "nestix-native-appkit"
version = "0.1.0"
edition = "2021"
publish = false

[dependencies]
nanoid = "0.4"
log = "0.4"
taffy = "*"
objc2 = "0.6"
objc2-foundation = "0.3"
objc2-app-kit = "0.3"
objc2-web-kit = "0.3"
block2 = "0.6"
