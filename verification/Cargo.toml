[package]
name = "landlock_runner"
version = "0.1.0"
edition = "2021"
publish = false

[dependencies]
landlock = "*"
enumflags2 = "*"
libc = "*"
chrono = "*"
uuid = { version = "*", features = ["v4"] }
