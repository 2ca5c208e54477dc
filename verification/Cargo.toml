[package]
name = "perfjail"
version = "0.1.0"
edition = "2021"
publish = false

[dependencies]
linear-map = "=1.2.0"
litemap = "=0.8.3"
nix = { version = "=0.31.3", features = ["fs", "process", "ptrace", "resource", "signal"] }
libc = "=0.2.191"
cvt = "=0.1.2"
enumset = "=1.1.15"
thiserror = "=2.0.21"
sysctl = "=0.7.1"
perf-event-open-sys = "=7.1.0"
