[package]
name = "termsize"
version = "0.1.0"
edition = "2021"
publish = false

[dependencies]
libc = "0.2"
redox_syscall = "0.2"
redox_termios = "0.1"
termios = "*"
