[package]
name = "thread_priority"
version = "0.1.0"
edition = "2021"
publish = false

[dependencies]
errno = "*"
libc = "*"
nix = { version = "*", features = ["resource", "pthread"] }
rustix = { version = "*", features = ["process", "thread"] }
windows-sys = { version = "*", features = ["Win32_Foundation", "Win32_System_Threading"] }
