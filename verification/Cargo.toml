[package]
name = "cpu_time"
version = "1.0.0"
edition = "2021"
publish = false

[dependencies]
libc = "0.2"
winapi = { version = "0.3", features = ["minwindef", "processthreadsapi", "winnt"] }
