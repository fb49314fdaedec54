[package]
name = "rdev"
version = "0.5.0"
edition = "2021"
publish = false

[dependencies]
epoll = "4.1.0"
evdev-rs = "0.4.0"
inotify = { version = "0.8.2", default-features = false }
libc = "0.2"
winapi = { version = "0.3", features = ["winuser", "minwindef", "basetsd"] }
x11 = { version = "2", features = ["xlib"] }
