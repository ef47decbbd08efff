[package]
name = "chroot_devtools"
version = "0.1.0"
edition = "2021"
publish = false

[dependencies]
clap = "2"
termcolor = "1"
which = "4"
