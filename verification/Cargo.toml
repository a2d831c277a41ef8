[package]
name = "dawdle_ssh"
version = "0.1.0"
edition = "2021"
publish = false

[dependencies]
ssh-key = "*"
argon2 = "*"
tokio = { version = "*", features = ["rt-multi-thread", "macros", "io-util", "sync", "net", "time"] }
russh = "*"
russh-keys = "*"
bollard = "*"
futures = "*"
async-trait = "*"
