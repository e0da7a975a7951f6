[package]
name = "gulf"
version = "0.1.0"
edition = "2021"
publish = false

[dependencies]
libc = "=0.2.191"
log = "=0.4.35"
bytes = "=1.12.1"
parking_lot = "=0.12.5"
tokio = { version = "=1.54.1", features = ["rt", "time", "net", "macros"] }
ashpd = { version = "=0.13.13", features = ["screencast"] }
pipewire = "=0.10.1"
libspa = "=0.10.1"
