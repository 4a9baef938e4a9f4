[package]
name = "terminal_core"
version = "0.1.0"
edition = "2021"
publish = false

[dependencies]
vte = "0.13"
log = "0.4"
libc = "0.2"
serde = { version = "1", features = ["derive"] }
bincode = "1"
thiserror = "1"
jni = "0.21"
