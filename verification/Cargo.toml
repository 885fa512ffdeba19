[package]
name = "rshell"
version = "0.1.0"
edition = "2021"
publish = false

[dependencies]
os_pipe = "*"
rustyline = "*"
trie-rs = "*"
