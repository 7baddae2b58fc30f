[package]
name = "usb_gadget"
version = "0.1.0"
edition = "2021"
publish = false

[dependencies]
bytes = "*"
libc = "*"
macaddr = "*"
nix = { version = "*", features = ["event", "feature", "fs", "hostname", "ioctl", "mount", "poll", "process", "user"] }
proc-mounts = "*"
tokio = { version = "*", features = ["net", "rt", "sync", "time"] }
uuid = "*"
